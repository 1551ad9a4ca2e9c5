//! The engine facade: one renderer, at most one view, and the order in which
//! the engine is asked to do things.
//!
//! A facade moves through the phases of [`Phase`]. Each operation checks what
//! it needs, changes the phase, and appends the engine requests that carry it
//! out to the facade's list of pending requests. An operation that fails
//! leaves the facade exactly as it was: no request is made.

use vstd::prelude::*;
use vstd::string::*;
use crate::bridge::{unpack_closure_view_cb, BridgeError, FunctionObject, Registry};
use crate::engine::{calls_view, Config, EngineCall, EngineCallView};
use crate::handles::{
    ArgumentPointer, ContextToken, EngineHandle, ExceptionSlot, ScriptCallArgs, ScriptContext,
    ScriptObject, ScriptValue, ViewHandle,
};
use crate::helpers::{create_js_function, evaluate_script, installed_object, set_js_object_property};
use crate::text::{contains_nul, has_nul};

verus! {

/// Why an operation of the facade was refused.
#[derive(Clone, Copy, Debug, PartialEq, Eq, Structural)]
pub enum FacadeError {
    /// The operation needs a view and none has been created.
    NoView,
    /// Text meant for the engine holds a zero byte.
    EmbeddedNul,
    /// The page was still loading when the allowed number of run-loop steps
    /// was used up.
    LoadTimedOut,
}

/// How far a facade has come.
#[derive(Clone, Copy, Debug, PartialEq, Eq, Structural)]
pub enum Phase {
    /// A renderer exists; no view has been created.
    Configured,
    /// A view exists; no content has been requested for it.
    Viewed,
    /// Content was requested and the load is in progress.
    Loading,
    /// The engine has reported that the view is not loading any more.
    Loaded,
    /// A render pass has run on the loaded content.
    Rendered,
}

/// The phase after the engine has reported that nothing is loading.
pub open spec fn settled(phase: Phase) -> Phase {
    if phase == Phase::Loading {
        Phase::Loaded
    } else {
        phase
    }
}

/// The phase after a render pass.
pub open spec fn rendered(phase: Phase) -> Phase {
    if phase == Phase::Loaded {
        Phase::Rendered
    } else {
        phase
    }
}

/// The script that measures the full height of the page's content.
pub open spec fn scroll_height_script() -> Seq<char> {
    "document.body.scrollHeight"@
}

/// A facade as a mathematical value.
pub struct FacadeState {
    /// The tunables the renderer is created with.
    pub config: Config,
    /// The renderer this facade owns.
    pub renderer: EngineHandle,
    /// The view this facade owns, once one was created.
    pub view: Option<ViewHandle>,
    pub phase: Phase,
    /// How many views this facade has created so far.
    pub views_created: nat,
    /// The engine requests made and not yet taken, oldest first.
    pub pending: Seq<EngineCallView>,
}

impl FacadeState {
    /// The phase says whether there is a view, and the view is one that this
    /// facade created.
    pub open spec fn wf(self) -> bool {
        &&& self.view is None <==> self.phase == Phase::Configured
        &&& self.view matches Some(view) ==> view.0 < self.views_created
    }

    /// This state with one more pending request.
    pub open spec fn emit(self, call: EngineCallView) -> FacadeState {
        FacadeState { pending: self.pending.push(call), ..self }
    }

    /// This state in another phase.
    pub open spec fn in_phase(self, phase: Phase) -> FacadeState {
        FacadeState { phase, ..self }
    }

    /// The view an operation works on, or the reason it is refused.
    pub open spec fn target(self) -> Result<ViewHandle, FacadeError> {
        match self.view {
            Some(view) => Ok(view),
            None => Err(FacadeError::NoView),
        }
    }

    /// The view an operation that hands text to the engine works on, or the
    /// reason it is refused. A missing view is reported before bad text.
    pub open spec fn target_for_text(self, bytes: Seq<u8>) -> Result<ViewHandle, FacadeError> {
        match self.view {
            Some(view) => if has_nul(bytes) {
                Err(FacadeError::EmbeddedNul)
            } else {
                Ok(view)
            },
            None => Err(FacadeError::NoView),
        }
    }
}

/// Owns a renderer and at most one view, and mediates every interaction with
/// the engine.
pub struct Ultralight {
    config: Config,
    renderer: EngineHandle,
    view: Option<ViewHandle>,
    phase: Phase,
    views_created: u64,
    calls: Vec<EngineCall>,
}

impl Ultralight {
    /// The facade as a mathematical value.
    pub closed spec fn state(&self) -> FacadeState {
        FacadeState {
            config: self.config,
            renderer: self.renderer,
            view: self.view,
            phase: self.phase,
            views_created: self.views_created as nat,
            pending: calls_view(self.calls@),
        }
    }

    /// The facade is well-formed.
    pub open spec fn wf(&self) -> bool {
        self.state().wf()
    }

    /// Appends one request to the pending ones.
    fn emit(&mut self, call: EngineCall)
        ensures
            final(self).state() == old(self).state().emit(call@),
    {
        self.calls.push(call);
        assert(calls_view(self.calls@) =~= calls_view(old(self).calls@).push(call@));
    }

    /// Makes a facade for `renderer`, or for a renderer of its own where none
    /// is given; that one is to be created from `config`, or from a
    /// configuration that sets nothing where none is given.
    pub fn new(config: Option<Config>, renderer: Option<EngineHandle>) -> (facade: Ultralight)
        ensures
            facade.wf(),
            facade.state().view is None,
            facade.state().phase == Phase::Configured,
            facade.state().views_created == 0,
            match config {
                Some(given) => facade.state().config == given,
                None => facade.state().config.tunables@.len() == 0,
            },
            match renderer {
                Some(given) => facade.state().renderer == given && facade.state().pending
                    == Seq::<EngineCallView>::empty(),
                None => facade.state().renderer == EngineHandle(0) && facade.state().pending
                    == seq![EngineCallView::CreateRenderer { renderer: EngineHandle(0) }],
            },
    {
        let used_config = match config {
            Some(given) => given,
            None => Config::new(),
        };
        let mut calls: Vec<EngineCall> = Vec::new();
        let used_renderer = match renderer {
            Some(given) => given,
            None => {
                let created = EngineHandle(0);
                calls.push(EngineCall::CreateRenderer { renderer: created });
                created
            },
        };
        Ultralight {
            config: used_config,
            renderer: used_renderer,
            view: None,
            phase: Phase::Configured,
            views_created: 0,
            calls,
        }
    }

    /// The tunables the renderer is created with.
    pub fn config(&self) -> (config: &Config)
        ensures
            *config == self.state().config,
    {
        &self.config
    }

    /// The renderer this facade owns.
    pub fn renderer(&self) -> (renderer: EngineHandle)
        ensures
            renderer == self.state().renderer,
    {
        self.renderer
    }

    /// The view this facade owns, if it has created one.
    pub fn current_view(&self) -> (view: Option<ViewHandle>)
        ensures
            view == self.state().view,
    {
        self.view
    }

    /// How many views this facade has created so far.
    pub fn views_created(&self) -> (count: u64)
        ensures
            count == self.state().views_created,
    {
        self.views_created
    }

    /// How far this facade has come.
    pub fn phase(&self) -> (phase: Phase)
        ensures
            phase == self.state().phase,
    {
        self.phase
    }

    /// Hands out the pending requests, oldest first, and leaves none pending.
    pub fn take_calls(&mut self) -> (calls: Vec<EngineCall>)
        ensures
            calls_view(calls@) == old(self).state().pending,
            final(self).state() == (FacadeState {
                pending: Seq::<EngineCallView>::empty(),
                ..old(self).state()
            }),
    {
        let mut calls: Vec<EngineCall> = Vec::new();
        core::mem::swap(&mut self.calls, &mut calls);
        assert(calls_view(self.calls@) =~= Seq::<EngineCallView>::empty());
        calls
    }

    /// Creates a view of `width` by `height` pixels and makes it the view of
    /// this facade. A view the facade had before is detached, not destroyed.
    pub fn view(&mut self, width: u32, height: u32, transparent: bool)
        requires
            width > 0,
            height > 0,
            old(self).wf(),
            old(self).state().views_created < u64::MAX,
        ensures
            final(self).wf(),
            final(self).state() == (FacadeState {
                view: Some(ViewHandle(old(self).state().views_created as u64)),
                phase: Phase::Viewed,
                views_created: old(self).state().views_created + 1,
                ..old(self).state()
            }).emit(
                EngineCallView::CreateView {
                    renderer: old(self).state().renderer,
                    view: ViewHandle(old(self).state().views_created as u64),
                    width,
                    height,
                    transparent,
                },
            ),
    {
        let created = ViewHandle(self.views_created);
        self.view = Some(created);
        self.phase = Phase::Viewed;
        self.views_created = self.views_created + 1;
        self.emit(
            EngineCall::CreateView {
                renderer: self.renderer,
                view: created,
                width,
                height,
                transparent,
            },
        );
    }

    /// Requests the page at `url` for the view. Failures of the load itself
    /// show later, through callbacks and the console relay.
    pub fn load_url(&mut self, url: &str) -> (outcome: Result<(), FacadeError>)
        requires
            old(self).wf(),
        ensures
            final(self).wf(),
            match old(self).state().target_for_text(url.spec_bytes()) {
                Ok(view) => {
                    &&& outcome == Ok::<(), FacadeError>(())
                    &&& final(self).state() == old(self).state().in_phase(Phase::Loading).emit(
                        EngineCallView::LoadUrl { view, url: url@ },
                    )
                },
                Err(e) => {
                    &&& outcome == Err::<(), FacadeError>(e)
                    &&& final(self).state() == old(self).state()
                },
            },
    {
        let view = match self.view {
            Some(view) => view,
            None => {
                return Err(FacadeError::NoView);
            },
        };
        if contains_nul(url) {
            return Err(FacadeError::EmbeddedNul);
        }
        self.phase = Phase::Loading;
        self.emit(EngineCall::LoadUrl { view, url: url.to_owned() });
        Ok(())
    }

    /// Requests `code` as the page of the view. Failures of the load itself
    /// show later, through callbacks and the console relay.
    pub fn load_html(&mut self, code: &str) -> (outcome: Result<(), FacadeError>)
        requires
            old(self).wf(),
        ensures
            final(self).wf(),
            match old(self).state().target_for_text(code.spec_bytes()) {
                Ok(view) => {
                    &&& outcome == Ok::<(), FacadeError>(())
                    &&& final(self).state() == old(self).state().in_phase(Phase::Loading).emit(
                        EngineCallView::LoadHtml { view, html: code@ },
                    )
                },
                Err(e) => {
                    &&& outcome == Err::<(), FacadeError>(e)
                    &&& final(self).state() == old(self).state()
                },
            },
    {
        let view = match self.view {
            Some(view) => view,
            None => {
                return Err(FacadeError::NoView);
            },
        };
        if contains_nul(code) {
            return Err(FacadeError::EmbeddedNul);
        }
        self.phase = Phase::Loading;
        self.emit(EngineCall::LoadHtml { view, html: code.to_owned() });
        Ok(())
    }

    /// Requests one step of the engine's run loop. Callbacks fire only while
    /// the engine performs such a step.
    pub fn update(&mut self)
        requires
            old(self).wf(),
        ensures
            final(self).wf(),
            final(self).state() == old(self).state().emit(
                EngineCallView::Update { renderer: old(self).state().renderer },
            ),
    {
        self.emit(EngineCall::Update { renderer: self.renderer });
    }

    /// One turn of waiting for the load: `still_loading` is what the engine
    /// answers when asked whether the view is loading.
    ///
    /// While it is, a run-loop step is requested and `true` is returned: ask
    /// again after the step. Once it is not, the wait is over, `false` is
    /// returned and nothing is requested. There is no limit to the number of
    /// turns: see [`Ultralight::update_until_loaded_within`].
    pub fn update_until_loaded(&mut self, still_loading: bool) -> (outcome: Result<
        bool,
        FacadeError,
    >)
        requires
            old(self).wf(),
        ensures
            final(self).wf(),
            match old(self).state().target() {
                Ok(view) => {
                    &&& outcome == Ok::<bool, FacadeError>(still_loading)
                    &&& final(self).state() == (if still_loading {
                        old(self).state().in_phase(Phase::Loading).emit(
                            EngineCallView::Update { renderer: old(self).state().renderer },
                        )
                    } else {
                        old(self).state().in_phase(settled(old(self).state().phase))
                    })
                },
                Err(e) => {
                    &&& outcome == Err::<bool, FacadeError>(e)
                    &&& final(self).state() == old(self).state()
                },
            },
    {
        if self.view.is_none() {
            return Err(FacadeError::NoView);
        }
        if still_loading {
            self.phase = Phase::Loading;
            self.emit(EngineCall::Update { renderer: self.renderer });
        } else if self.phase == Phase::Loading {
            self.phase = Phase::Loaded;
        }
        Ok(still_loading)
    }

    /// One turn of waiting for the load with a limit: `steps_left` is the
    /// number of run-loop steps that may still be requested.
    ///
    /// As [`Ultralight::update_until_loaded`], but where the view is still
    /// loading and no step is left the wait ends with `LoadTimedOut`; where a
    /// step is requested, `steps_left` goes down by one.
    pub fn update_until_loaded_within(
        &mut self,
        still_loading: bool,
        steps_left: &mut u32,
    ) -> (outcome: Result<bool, FacadeError>)
        requires
            old(self).wf(),
        ensures
            final(self).wf(),
            match old(self).state().target() {
                Ok(view) => if still_loading && *old(steps_left) == 0 {
                    &&& outcome == Err::<bool, FacadeError>(FacadeError::LoadTimedOut)
                    &&& final(self).state() == old(self).state()
                    &&& *final(steps_left) == *old(steps_left)
                } else if still_loading {
                    &&& outcome == Ok::<bool, FacadeError>(true)
                    &&& final(self).state() == old(self).state().in_phase(Phase::Loading).emit(
                        EngineCallView::Update { renderer: old(self).state().renderer },
                    )
                    &&& *final(steps_left) == *old(steps_left) - 1
                } else {
                    &&& outcome == Ok::<bool, FacadeError>(false)
                    &&& final(self).state() == old(self).state().in_phase(
                        settled(old(self).state().phase),
                    )
                    &&& *final(steps_left) == *old(steps_left)
                },
                Err(e) => {
                    &&& outcome == Err::<bool, FacadeError>(e)
                    &&& final(self).state() == old(self).state()
                    &&& *final(steps_left) == *old(steps_left)
                },
            },
    {
        if self.view.is_none() {
            return Err(FacadeError::NoView);
        }
        if still_loading && *steps_left == 0 {
            return Err(FacadeError::LoadTimedOut);
        }
        if still_loading {
            *steps_left = *steps_left - 1;
        }
        self.update_until_loaded(still_loading)
    }

    /// Requests a render pass. Pixels show the final content only where the
    /// pass runs after the load has ended.
    pub fn render(&mut self)
        requires
            old(self).wf(),
        ensures
            final(self).wf(),
            final(self).state() == old(self).state().in_phase(
                rendered(old(self).state().phase),
            ).emit(EngineCallView::Render { renderer: old(self).state().renderer }),
    {
        if self.phase == Phase::Loaded {
            self.phase = Phase::Rendered;
        }
        self.emit(EngineCall::Render { renderer: self.renderer });
    }

    /// Requests that the view be scrolled by the given number of pixels.
    pub fn scroll(&mut self, delta_x: i32, delta_y: i32) -> (outcome: Result<(), FacadeError>)
        requires
            old(self).wf(),
        ensures
            final(self).wf(),
            match old(self).state().target() {
                Ok(view) => {
                    &&& outcome == Ok::<(), FacadeError>(())
                    &&& final(self).state() == old(self).state().emit(
                        EngineCallView::Scroll { view, delta_x, delta_y },
                    )
                },
                Err(e) => {
                    &&& outcome == Err::<(), FacadeError>(e)
                    &&& final(self).state() == old(self).state()
                },
            },
    {
        let view = match self.view {
            Some(view) => view,
            None => {
                return Err(FacadeError::NoView);
            },
        };
        self.emit(EngineCall::Scroll { view, delta_x, delta_y });
        Ok(())
    }

    /// Requests the full height of the page's content: the script that
    /// measures it is evaluated and its value converted to a number.
    pub fn get_scroll_height(&mut self) -> (outcome: Result<(), FacadeError>)
        requires
            old(self).wf(),
        ensures
            final(self).wf(),
            match old(self).state().target() {
                Ok(view) => {
                    &&& outcome == Ok::<(), FacadeError>(())
                    &&& final(self).state() == old(self).state().emit(
                        EngineCallView::EvaluateScript { view, script: scroll_height_script() },
                    ).emit(EngineCallView::ValueToNumber { view })
                },
                Err(e) => {
                    &&& outcome == Err::<(), FacadeError>(e)
                    &&& final(self).state() == old(self).state()
                },
            },
    {
        let view = match self.view {
            Some(view) => view,
            None => {
                return Err(FacadeError::NoView);
            },
        };
        self.emit(
            EngineCall::EvaluateScript { view, script: "document.body.scrollHeight".to_owned() },
        );
        self.emit(EngineCall::ValueToNumber { view });
        Ok(())
    }

    /// Has `cb` called whenever a load finishes in the view. The closure
    /// moves into `callbacks`; its token is returned.
    pub fn set_finish_loading_callback<F: Fn(ViewHandle)>(
        &mut self,
        callbacks: &mut Registry<F>,
        cb: F,
    ) -> (outcome: Result<ContextToken, FacadeError>)
        requires
            old(self).wf(),
            old(callbacks).accepts_view_events(),
            forall|view: ViewHandle| call_requires(cb, (view,)),
        ensures
            final(self).wf(),
            final(callbacks).accepts_view_events(),
            match old(self).state().target() {
                Ok(view) => {
                    let token = ContextToken(old(callbacks).slots().len() as u64);
                    &&& outcome == Ok::<ContextToken, FacadeError>(token)
                    &&& final(callbacks).slots() == old(callbacks).slots().push(Some(cb))
                    &&& final(callbacks).lookup(token) == Ok::<F, BridgeError>(cb)
                    &&& final(self).state() == old(self).state().emit(
                        EngineCallView::SetFinishLoadingCallback { view, token },
                    )
                },
                Err(e) => {
                    &&& outcome == Err::<ContextToken, FacadeError>(e)
                    &&& final(self).state() == old(self).state()
                    &&& final(callbacks).slots() == old(callbacks).slots()
                },
            },
    {
        let view = match self.view {
            Some(view) => view,
            None => {
                return Err(FacadeError::NoView);
            },
        };
        let token = unpack_closure_view_cb(callbacks, cb);
        self.emit(EngineCall::SetFinishLoadingCallback { view, token });
        Ok(token)
    }

    /// Has `cb` called whenever the document of the view is ready. The
    /// closure moves into `callbacks`; its token is returned.
    pub fn set_dom_ready_callback<F: Fn(ViewHandle)>(
        &mut self,
        callbacks: &mut Registry<F>,
        cb: F,
    ) -> (outcome: Result<ContextToken, FacadeError>)
        requires
            old(self).wf(),
            old(callbacks).accepts_view_events(),
            forall|view: ViewHandle| call_requires(cb, (view,)),
        ensures
            final(self).wf(),
            final(callbacks).accepts_view_events(),
            match old(self).state().target() {
                Ok(view) => {
                    let token = ContextToken(old(callbacks).slots().len() as u64);
                    &&& outcome == Ok::<ContextToken, FacadeError>(token)
                    &&& final(callbacks).slots() == old(callbacks).slots().push(Some(cb))
                    &&& final(callbacks).lookup(token) == Ok::<F, BridgeError>(cb)
                    &&& final(self).state() == old(self).state().emit(
                        EngineCallView::SetDomReadyCallback { view, token },
                    )
                },
                Err(e) => {
                    &&& outcome == Err::<ContextToken, FacadeError>(e)
                    &&& final(self).state() == old(self).state()
                    &&& final(callbacks).slots() == old(callbacks).slots()
                },
            },
    {
        let view = match self.view {
            Some(view) => view,
            None => {
                return Err(FacadeError::NoView);
            },
        };
        let token = unpack_closure_view_cb(callbacks, cb);
        self.emit(EngineCall::SetDomReadyCallback { view, token });
        Ok(token)
    }

    /// Installs `hook` in the view's page as a native function named `name`
    /// and returns the function object. The hook moves into `hooks`.
    ///
    /// The object is not reachable from script until it is bound to a global
    /// name with [`Ultralight::set_js_object_property`]. Where there is no
    /// view, or the name holds a zero byte, nothing is stored and nothing is
    /// requested.
    pub fn create_function<
        F: Fn(
            ScriptContext,
            ScriptObject,
            ScriptObject,
            usize,
            ArgumentPointer,
            ExceptionSlot,
        ) -> ScriptValue,
    >(&mut self, hooks: &mut Registry<F>, name: &str, hook: F) -> (outcome: Result<
        FunctionObject,
        FacadeError,
    >)
        requires
            name@.len() > 0,
            old(self).wf(),
            old(hooks).accepts_script_calls(),
            forall|args: ScriptCallArgs| call_requires(hook, args),
        ensures
            final(self).wf(),
            final(hooks).accepts_script_calls(),
            match old(self).state().target_for_text(name.spec_bytes()) {
                Ok(view) => {
                    let token = ContextToken(old(hooks).slots().len() as u64);
                    &&& outcome == Ok::<FunctionObject, FacadeError>(installed_object(token))
                    &&& final(hooks).slots() == old(hooks).slots().push(Some(hook))
                    &&& final(hooks).lookup_private(installed_object(token)) == Ok::<
                        F,
                        BridgeError,
                    >(hook)
                    &&& final(self).state() == old(self).state().emit(
                        EngineCallView::CreateFunction {
                            view,
                            name: name@,
                            object: ScriptObject(token.0),
                            token,
                        },
                    )
                },
                Err(e) => {
                    &&& outcome == Err::<FunctionObject, FacadeError>(e)
                    &&& final(self).state() == old(self).state()
                    &&& final(hooks).slots() == old(hooks).slots()
                },
            },
    {
        let view = match self.view {
            Some(view) => view,
            None => {
                return Err(FacadeError::NoView);
            },
        };
        match create_js_function(view, hooks, name, hook) {
            Ok((function, call)) => {
                self.emit(call);
                Ok(function)
            },
            Err(e) => Err(e),
        }
    }

    /// Binds `object` to the global name `name` of the view's page.
    pub fn set_js_object_property(&mut self, name: &str, object: ScriptObject) -> (outcome: Result<
        (),
        FacadeError,
    >)
        requires
            old(self).wf(),
        ensures
            final(self).wf(),
            match old(self).state().target_for_text(name.spec_bytes()) {
                Ok(view) => {
                    &&& outcome == Ok::<(), FacadeError>(())
                    &&& final(self).state() == old(self).state().emit(
                        EngineCallView::SetGlobalProperty { view, name: name@, object },
                    )
                },
                Err(e) => {
                    &&& outcome == Err::<(), FacadeError>(e)
                    &&& final(self).state() == old(self).state()
                },
            },
    {
        let view = match self.view {
            Some(view) => view,
            None => {
                return Err(FacadeError::NoView);
            },
        };
        match set_js_object_property(view, name, object) {
            Ok(call) => {
                self.emit(call);
                Ok(())
            },
            Err(e) => Err(e),
        }
    }

    /// Requests that `script` be evaluated in the view's page.
    pub fn evaluate_script(&mut self, script: &str) -> (outcome: Result<(), FacadeError>)
        requires
            old(self).wf(),
        ensures
            final(self).wf(),
            match old(self).state().target_for_text(script.spec_bytes()) {
                Ok(view) => {
                    &&& outcome == Ok::<(), FacadeError>(())
                    &&& final(self).state() == old(self).state().emit(
                        EngineCallView::EvaluateScript { view, script: script@ },
                    )
                },
                Err(e) => {
                    &&& outcome == Err::<(), FacadeError>(e)
                    &&& final(self).state() == old(self).state()
                },
            },
    {
        let view = match self.view {
            Some(view) => view,
            None => {
                return Err(FacadeError::NoView);
            },
        };
        match evaluate_script(view, script) {
            Ok(call) => {
                self.emit(call);
                Ok(())
            },
            Err(e) => Err(e),
        }
    }

    /// Requests a copy of the view's current pixels. No render pass is
    /// requested with it: without one before, the pixels may be stale or
    /// empty.
    pub fn get_raw_pixels(&mut self) -> (outcome: Result<(), FacadeError>)
        requires
            old(self).wf(),
        ensures
            final(self).wf(),
            match old(self).state().target() {
                Ok(view) => {
                    &&& outcome == Ok::<(), FacadeError>(())
                    &&& final(self).state() == old(self).state().emit(
                        EngineCallView::ReadPixels { view },
                    )
                },
                Err(e) => {
                    &&& outcome == Err::<(), FacadeError>(e)
                    &&& final(self).state() == old(self).state()
                },
            },
    {
        let view = match self.view {
            Some(view) => view,
            None => {
                return Err(FacadeError::NoView);
            },
        };
        self.emit(EngineCall::ReadPixels { view });
        Ok(())
    }

    /// Requests that the view's current pixels be written to `file_name` as
    /// PNG. Whether the encoder succeeded is the engine's answer to the
    /// request.
    pub fn write_png_to_file(&mut self, file_name: &str) -> (outcome: Result<(), FacadeError>)
        requires
            old(self).wf(),
        ensures
            final(self).wf(),
            match old(self).state().target_for_text(file_name.spec_bytes()) {
                Ok(view) => {
                    &&& outcome == Ok::<(), FacadeError>(())
                    &&& final(self).state() == old(self).state().emit(
                        EngineCallView::WritePng { view, path: file_name@ },
                    )
                },
                Err(e) => {
                    &&& outcome == Err::<(), FacadeError>(e)
                    &&& final(self).state() == old(self).state()
                },
            },
    {
        let view = match self.view {
            Some(view) => view,
            None => {
                return Err(FacadeError::NoView);
            },
        };
        if contains_nul(file_name) {
            return Err(FacadeError::EmbeddedNul);
        }
        self.emit(EngineCall::WritePng { view, path: file_name.to_owned() });
        Ok(())
    }

    /// One step of a tall-page capture in a view of `height` rows: requests
    /// the pixels of the frame in view, then scrolls down by one view height
    /// and requests a render pass for the frame that follows.
    pub fn capture_frame(&mut self, height: u32) -> (outcome: Result<(), FacadeError>)
        requires
            old(self).wf(),
            0 < height <= 0x7FFF_FFFF,
        ensures
            final(self).wf(),
            match old(self).state().target() {
                Ok(view) => {
                    &&& outcome == Ok::<(), FacadeError>(())
                    &&& final(self).state() == old(self).state().emit(
                        EngineCallView::ReadPixels { view },
                    ).emit(
                        EngineCallView::Scroll { view, delta_x: 0, delta_y: (-height) as i32 },
                    ).in_phase(rendered(old(self).state().phase)).emit(
                        EngineCallView::Render { renderer: old(self).state().renderer },
                    )
                },
                Err(e) => {
                    &&& outcome == Err::<(), FacadeError>(e)
                    &&& final(self).state() == old(self).state()
                },
            },
    {
        if self.view.is_none() {
            return Err(FacadeError::NoView);
        }
        let down: i32 = 0 - (height as i32);
        let _ = self.get_raw_pixels();
        let _ = self.scroll(0, down);
        self.render();
        Ok(())
    }

    /// Whether a load is in progress, as far as the facade has been told.
    /// Without a view nothing is loading.
    pub fn is_loading(&self) -> (loading: bool)
        ensures
            loading == (self.state().phase == Phase::Loading),
            self.wf() && self.state().view is None ==> !loading,
    {
        self.phase == Phase::Loading
    }

    /// Requests that the console-log relay be told of every diagnostic of the
    /// view.
    pub fn log_to_stdout(&mut self) -> (outcome: Result<(), FacadeError>)
        requires
            old(self).wf(),
        ensures
            final(self).wf(),
            match old(self).state().target() {
                Ok(view) => {
                    &&& outcome == Ok::<(), FacadeError>(())
                    &&& final(self).state() == old(self).state().emit(
                        EngineCallView::SetConsoleCallback { view },
                    )
                },
                Err(e) => {
                    &&& outcome == Err::<(), FacadeError>(e)
                    &&& final(self).state() == old(self).state()
                },
            },
    {
        let view = match self.view {
            Some(view) => view,
            None => {
                return Err(FacadeError::NoView);
            },
        };
        self.emit(EngineCall::SetConsoleCallback { view });
        Ok(())
    }
}

/// Without a view every operation that needs one is refused with `NoView`,
/// whatever text it was given; with a view, text is refused exactly where it
/// holds a zero byte.
pub proof fn law_no_view_refuses(state: FacadeState, bytes: Seq<u8>)
    ensures
        state.view is None ==> state.target() == Err::<ViewHandle, FacadeError>(
            FacadeError::NoView,
        ) && state.target_for_text(bytes) == Err::<ViewHandle, FacadeError>(FacadeError::NoView),
        state.view matches Some(view) ==> state.target() == Ok::<ViewHandle, FacadeError>(view)
            && (state.target_for_text(bytes) == if has_nul(bytes) {
            Err::<ViewHandle, FacadeError>(FacadeError::EmbeddedNul)
        } else {
            Ok::<ViewHandle, FacadeError>(view)
        }),
{
}

} // verus!
