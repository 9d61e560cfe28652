//! IPC server configuration, a thin layer over [`SingleInstanceApp`].

use vstd::prelude::*;
use crate::error::CommunicationError;
use crate::single_instance::{AppView, SingleInstanceApp};
use crate::types::{ConfigView, ProtocolType, spec_default_config};

verus! {

/// IPC server with a thin API around [`SingleInstanceApp`].
pub struct IpcServer {
    app: SingleInstanceApp,
}

impl IpcServer {
    /// The application the server runs.
    pub closed spec fn app_view(&self) -> AppView {
        self.app@
    }

    /// Create a new IPC server for the given application identifier.
    pub fn new(identifier: &str) -> (r: Result<Self, CommunicationError>)
        ensures
            r matches Ok(s) && s.app_view().identifier == identifier@
                && s.app_view().config == (ConfigView { identifier: identifier@, ..spec_default_config() })
                && s.app_view().endpoint is None && !s.app_view().is_primary,
    {
        Ok(IpcServer { app: SingleInstanceApp::new(identifier) })
    }

    /// Configure the communication protocol.
    pub fn with_protocol(self, protocol: ProtocolType) -> (s: Self)
        ensures
            s.app_view() == (AppView {
                config: ConfigView { protocol, ..self.app_view().config },
                ..self.app_view()
            }),
    {
        IpcServer { app: self.app.with_protocol(protocol) }
    }

    /// Return the server endpoint, if the server has started.
    pub fn endpoint(&self) -> (e: Option<String>)
        ensures
            e is Some <==> self.app_view().endpoint is Some,
            e matches Some(t) ==> self.app_view().endpoint == Some(t@),
    {
        self.app.endpoint()
    }

    /// The application the server runs.
    pub fn app(&self) -> (a: &SingleInstanceApp)
        ensures
            a@ == self.app_view(),
    {
        &self.app
    }

    /// Records that the server was started and listens at `endpoint`.
    pub fn record_started(&mut self, endpoint: String)
        ensures
            final(self).app_view() == (AppView { endpoint: Some(endpoint@), ..old(self).app_view() }),
    {
        self.app.record_started(endpoint);
    }
}

} // verus!
