//! Names of the files, sockets and endpoints that the protocols use.

use vstd::prelude::*;
use crate::pid::{decimal_digits, decimal_text};
use crate::text::{join2, join3};

verus! {

/// The path of the temporary file for `identifier` with extension `ext`,
/// inside the temporary directory `dir`.
pub open spec fn temp_path_of(dir: Seq<char>, identifier: Seq<char>, ext: Seq<char>) -> Seq<char> {
    dir + "/"@ + identifier + "."@ + ext
}

/// Get the temporary file path for the given identifier and extension, in the
/// temporary directory `temp_dir`.
pub fn get_temp_path(temp_dir: &str, identifier: &str, extension: &str) -> (p: String)
    ensures
        p@ == temp_path_of(temp_dir@, identifier@, extension@),
{
    let mut p = join3(temp_dir, "/", identifier);
    p.append(".");
    p.append(extension);
    p
}

/// The path of the Unix domain socket of a server.
pub open spec fn socket_path_of(identifier: Seq<char>) -> Seq<char> {
    "/tmp/"@ + identifier + ".sock"@
}

/// The socket path a Unix domain socket server listens on.
pub fn get_socket_path(identifier: &str) -> (p: String)
    ensures
        p@ == socket_path_of(identifier@),
{
    join3("/tmp/", identifier, ".sock")
}

/// The file in which a file-based server answers the message file.
pub fn response_path(message_file: &str) -> (p: String)
    ensures
        p@ == message_file@ + ".response"@,
{
    join2(message_file, ".response")
}

/// The scratch file a process writes before renaming it into place.
pub fn scratch_path(file: &str, pid: u32) -> (p: String)
    ensures
        p@ == file@ + ".temp."@ + decimal_digits(pid as nat),
{
    let digits = decimal_text(pid);
    join3(file, ".temp.", digits.as_str())
}

/// The endpoint of a file-based server.
pub fn file_endpoint(lock_file: &str) -> (e: String)
    ensures
        e@ == "file://"@ + lock_file@,
{
    join2("file://", lock_file)
}

/// The endpoint of a shared-memory server.
pub fn shm_endpoint(shm_file: &str) -> (e: String)
    ensures
        e@ == "shm://"@ + shm_file@,
{
    join2("shm://", shm_file)
}

/// The endpoint of an in-memory server.
pub fn in_memory_endpoint(identifier: &str) -> (e: String)
    ensures
        e@ == "in-memory://"@ + identifier@,
{
    join2("in-memory://", identifier)
}

} // verus!
