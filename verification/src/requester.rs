//! The requester: the transport-level settings that a request is sent with, and the
//! handle of a request that is ready to be sent.

use crate::request::{clone_text, text_view, Request, RequestView};
use vstd::prelude::*;

verus! {

/// Mathematical model of [`Settings`].
pub struct SettingsView {
    pub proxy: Option<Seq<char>>,
    pub user_agent: Seq<char>,
    pub compression: bool,
}

/// The transport-level settings of a requester.
#[derive(Debug, PartialEq, Eq)]
pub struct Settings {
    proxy: Option<String>,
    user_agent: String,
    compression: bool,
}

impl View for Settings {
    type V = SettingsView;

    closed spec fn view(&self) -> SettingsView {
        SettingsView {
            proxy: text_view(self.proxy),
            user_agent: self.user_agent@,
            compression: self.compression,
        }
    }
}

/// The settings of a requester that nothing has been asked of: no proxy, an empty user
/// agent, no compression.
pub open spec fn initial_settings() -> SettingsView {
    SettingsView { proxy: None, user_agent: Seq::empty(), compression: false }
}

/// The settings that `request` asks for.
pub open spec fn settings_for(request: RequestView) -> SettingsView {
    SettingsView {
        proxy: request.proxy,
        user_agent: request.user_agent,
        compression: request.compressed,
    }
}

impl Clone for Settings {
    fn clone(&self) -> (copy: Self)
        ensures
            copy@ == self@,
    {
        Settings {
            proxy: clone_text(&self.proxy),
            user_agent: self.user_agent.clone(),
            compression: self.compression,
        }
    }
}

impl Settings {
    pub fn new() -> (settings: Self)
        ensures
            settings@ == initial_settings(),
    {
        Settings { proxy: None, user_agent: String::new(), compression: false }
    }

    pub fn set_proxy(&mut self, proxy: Option<String>)
        ensures
            final(self)@ == (SettingsView { proxy: text_view(proxy), ..old(self)@ }),
    {
        self.proxy = proxy;
    }

    pub fn set_user_agent(&mut self, user_agent: String)
        ensures
            final(self)@ == (SettingsView { user_agent: user_agent@, ..old(self)@ }),
    {
        self.user_agent = user_agent;
    }

    pub fn set_compression(&mut self, compression: bool)
        ensures
            final(self)@ == (SettingsView { compression, ..old(self)@ }),
    {
        self.compression = compression;
    }

    pub fn proxy(&self) -> (proxy: Option<String>)
        ensures
            text_view(proxy) == self@.proxy,
    {
        clone_text(&self.proxy)
    }

    pub fn user_agent(&self) -> (user_agent: String)
        ensures
            user_agent@ == self@.user_agent,
    {
        self.user_agent.clone()
    }

    pub fn compression(&self) -> (compression: bool)
        ensures
            compression == self@.compression,
    {
        self.compression
    }
}

/// Mathematical model of a [`RequestHandle`].
pub struct RequestHandleView {
    pub request: RequestView,
    pub settings: SettingsView,
}

/// A request that is ready to be sent: the description of the call together with the
/// settings of the requester that prepared it. Sending consumes the handle.
#[derive(Debug, PartialEq, Eq)]
pub struct RequestHandle {
    request: Request,
    settings: Settings,
}

impl View for RequestHandle {
    type V = RequestHandleView;

    closed spec fn view(&self) -> RequestHandleView {
        RequestHandleView { request: self.request@, settings: self.settings@ }
    }
}

impl RequestHandle {
    pub fn request(&self) -> (request: &Request)
        ensures
            request@ == self@.request,
    {
        &self.request
    }

    pub fn settings(&self) -> (settings: &Settings)
        ensures
            settings@ == self@.settings,
    {
        &self.settings
    }
}

/// Holds the transport-level settings and prepares requests for sending.
#[derive(Debug, PartialEq, Eq)]
pub struct HttpRequester {
    pub settings: Settings,
}

impl View for HttpRequester {
    type V = SettingsView;

    open spec fn view(&self) -> SettingsView {
        self.settings@
    }
}

impl Clone for HttpRequester {
    fn clone(&self) -> (copy: Self)
        ensures
            copy@ == self@,
    {
        HttpRequester { settings: self.settings.clone() }
    }
}

impl HttpRequester {
    pub fn new() -> (requester: Self)
        ensures
            requester@ == initial_settings(),
    {
        HttpRequester { settings: Settings::new() }
    }

    /// The handle of `request`, to be sent with the settings that this requester has now.
    pub fn build_request(&self, request: Request) -> (handle: RequestHandle)
        ensures
            handle@ == (RequestHandleView { request: request@, settings: self@ }),
    {
        RequestHandle { request, settings: self.settings.clone() }
    }
}

} // verus!
