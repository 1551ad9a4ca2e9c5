//! The requests this library makes of the engine.
//!
//! The library never calls the engine. Each operation states which requests
//! are due, as [`EngineCall`] values; whoever embeds the library performs them
//! in the order given.

use vstd::prelude::*;
use crate::handles::{ContextToken, EngineHandle, ScriptObject, ViewHandle};

verus! {

/// One named engine tunable and the value to set it to.
#[derive(Clone, Debug, PartialEq, Eq)]
pub struct Tunable {
    pub name: String,
    pub value: String,
}

/// The engine tunables to set. A tunable that is not listed keeps the
/// engine's own default.
#[derive(Clone, Debug, PartialEq, Eq)]
pub struct Config {
    pub tunables: Vec<Tunable>,
}

impl Config {
    /// A configuration that sets nothing: every tunable keeps its default.
    pub fn new() -> (config: Config)
        ensures
            config.tunables@.len() == 0,
    {
        Config { tunables: Vec::new() }
    }
}

/// One request to the engine.
#[derive(Clone, Debug, PartialEq, Eq)]
pub enum EngineCall {
    /// Create a renderer from the facade's configuration and know it as
    /// `renderer`.
    CreateRenderer { renderer: EngineHandle },
    /// Create a view of the given size and know it as `view`.
    CreateView {
        renderer: EngineHandle,
        view: ViewHandle,
        width: u32,
        height: u32,
        transparent: bool,
    },
    /// Load the page at `url` into the view.
    LoadUrl { view: ViewHandle, url: String },
    /// Load `html` into the view as its page.
    LoadHtml { view: ViewHandle, html: String },
    /// Advance the engine's run loop by one step.
    Update { renderer: EngineHandle },
    /// Render all views of the renderer.
    Render { renderer: EngineHandle },
    /// Create a scroll-by-pixel event with these deltas, fire it at the view,
    /// and destroy it.
    Scroll { view: ViewHandle, delta_x: i32, delta_y: i32 },
    /// Evaluate `script` in the view's script context, with the global object
    /// as `this`.
    EvaluateScript { view: ViewHandle, script: String },
    /// Convert the value of the script evaluated last in this view to a
    /// number.
    ValueToNumber { view: ViewHandle },
    /// Set the property `name` of the view's global object to `object`.
    SetGlobalProperty { view: ViewHandle, name: String, object: ScriptObject },
    /// Define a class named `name` whose only capability is to be called as a
    /// function, bound to the script-hook trampoline; make one object of it
    /// with `token` in its private-data slot; know the object as `object`.
    CreateFunction { view: ViewHandle, name: String, object: ScriptObject, token: ContextToken },
    /// Have the view-event trampoline called with `token` when a load
    /// finishes.
    SetFinishLoadingCallback { view: ViewHandle, token: ContextToken },
    /// Have the view-event trampoline called with `token` when the document
    /// is ready.
    SetDomReadyCallback { view: ViewHandle, token: ContextToken },
    /// Have the console-log relay called for every diagnostic of the view.
    SetConsoleCallback { view: ViewHandle },
    /// Lock the view's bitmap, copy its pixels out, and unlock it.
    ReadPixels { view: ViewHandle },
    /// Encode the view's bitmap as PNG into the file at `path`.
    WritePng { view: ViewHandle, path: String },
}

/// An [`EngineCall`] as a mathematical value: text is a sequence of
/// characters.
pub enum EngineCallView {
    CreateRenderer { renderer: EngineHandle },
    CreateView {
        renderer: EngineHandle,
        view: ViewHandle,
        width: u32,
        height: u32,
        transparent: bool,
    },
    LoadUrl { view: ViewHandle, url: Seq<char> },
    LoadHtml { view: ViewHandle, html: Seq<char> },
    Update { renderer: EngineHandle },
    Render { renderer: EngineHandle },
    Scroll { view: ViewHandle, delta_x: i32, delta_y: i32 },
    EvaluateScript { view: ViewHandle, script: Seq<char> },
    ValueToNumber { view: ViewHandle },
    SetGlobalProperty { view: ViewHandle, name: Seq<char>, object: ScriptObject },
    CreateFunction { view: ViewHandle, name: Seq<char>, object: ScriptObject, token: ContextToken },
    SetFinishLoadingCallback { view: ViewHandle, token: ContextToken },
    SetDomReadyCallback { view: ViewHandle, token: ContextToken },
    SetConsoleCallback { view: ViewHandle },
    ReadPixels { view: ViewHandle },
    WritePng { view: ViewHandle, path: Seq<char> },
}

impl View for EngineCall {
    type V = EngineCallView;

    open spec fn view(&self) -> EngineCallView {
        match *self {
            EngineCall::CreateRenderer { renderer } => EngineCallView::CreateRenderer { renderer },
            EngineCall::CreateView { renderer, view, width, height, transparent } => {
                EngineCallView::CreateView { renderer, view, width, height, transparent }
            },
            EngineCall::LoadUrl { view, url } => EngineCallView::LoadUrl { view, url: url@ },
            EngineCall::LoadHtml { view, html } => EngineCallView::LoadHtml { view, html: html@ },
            EngineCall::Update { renderer } => EngineCallView::Update { renderer },
            EngineCall::Render { renderer } => EngineCallView::Render { renderer },
            EngineCall::Scroll { view, delta_x, delta_y } => EngineCallView::Scroll {
                view,
                delta_x,
                delta_y,
            },
            EngineCall::EvaluateScript { view, script } => EngineCallView::EvaluateScript {
                view,
                script: script@,
            },
            EngineCall::ValueToNumber { view } => EngineCallView::ValueToNumber { view },
            EngineCall::SetGlobalProperty { view, name, object } => {
                EngineCallView::SetGlobalProperty { view, name: name@, object }
            },
            EngineCall::CreateFunction { view, name, object, token } => {
                EngineCallView::CreateFunction { view, name: name@, object, token }
            },
            EngineCall::SetFinishLoadingCallback { view, token } => {
                EngineCallView::SetFinishLoadingCallback { view, token }
            },
            EngineCall::SetDomReadyCallback { view, token } => EngineCallView::SetDomReadyCallback {
                view,
                token,
            },
            EngineCall::SetConsoleCallback { view } => EngineCallView::SetConsoleCallback { view },
            EngineCall::ReadPixels { view } => EngineCallView::ReadPixels { view },
            EngineCall::WritePng { view, path } => EngineCallView::WritePng { view, path: path@ },
        }
    }
}

/// A list of requests as mathematical values, in the same order.
pub open spec fn calls_view(calls: Seq<EngineCall>) -> Seq<EngineCallView> {
    calls.map_values(|call: EngineCall| call@)
}

} // verus!
