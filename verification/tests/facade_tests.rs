use std::cell::Cell;
use std::rc::Rc;

use ultralight::bridge::{script_hook_trampoline, view_event_trampoline, FunctionObject, Registry};
use ultralight::engine::{Config, EngineCall, Tunable};
use ultralight::facade::{FacadeError, Phase, Ultralight};
use ultralight::handles::{
    ArgumentPointer, ContextToken, EngineHandle, ExceptionSlot, ScriptContext, ScriptObject,
    ScriptValue, ViewHandle,
};
use ultralight::helpers::{create_js_function, evaluate_script, set_js_object_property};
use ultralight::text::contains_nul;

type ViewCallback = Box<dyn Fn(ViewHandle)>;
type Hook = Box<
    dyn Fn(
        ScriptContext,
        ScriptObject,
        ScriptObject,
        usize,
        ArgumentPointer,
        ExceptionSlot,
    ) -> ScriptValue,
>;

fn viewed() -> Ultralight {
    let mut ul = Ultralight::new(None, Some(EngineHandle(9)));
    ul.view(1920, 1080, false);
    ul.take_calls();
    ul
}

#[test]
fn new_facade_creates_a_renderer_unless_given_one() {
    let mut own = Ultralight::new(None, None);
    assert_eq!(own.renderer(), EngineHandle(0));
    assert_eq!(own.current_view(), None);
    assert_eq!(own.phase(), Phase::Configured);
    assert_eq!(own.config(), &Config::new());
    assert_eq!(own.take_calls(), vec![EngineCall::CreateRenderer { renderer: EngineHandle(0) }]);

    let config = Config {
        tunables: vec![Tunable { name: "font_family".to_string(), value: "serif".to_string() }],
    };
    let mut given = Ultralight::new(Some(config.clone()), Some(EngineHandle(5)));
    assert_eq!(given.renderer(), EngineHandle(5));
    assert_eq!(given.config(), &config);
    assert!(given.take_calls().is_empty());
}

#[test]
fn operations_without_a_view_fail_and_request_nothing() {
    let mut ul = Ultralight::new(None, Some(EngineHandle(1)));
    let mut callbacks: Registry<ViewCallback> = Registry::new();
    let mut hooks: Registry<Hook> = Registry::new();
    assert_eq!(ul.load_url("https://example.org"), Err(FacadeError::NoView));
    assert_eq!(ul.load_html("<p>hi</p>"), Err(FacadeError::NoView));
    assert_eq!(ul.update_until_loaded(true), Err(FacadeError::NoView));
    assert_eq!(ul.update_until_loaded(false), Err(FacadeError::NoView));
    let mut steps = 3u32;
    assert_eq!(ul.update_until_loaded_within(true, &mut steps), Err(FacadeError::NoView));
    assert_eq!(steps, 3);
    assert_eq!(ul.scroll(0, -1080), Err(FacadeError::NoView));
    assert_eq!(ul.get_scroll_height(), Err(FacadeError::NoView));
    assert_eq!(
        ul.set_finish_loading_callback(&mut callbacks, Box::new(|_| ())),
        Err(FacadeError::NoView)
    );
    assert_eq!(
        ul.set_dom_ready_callback(&mut callbacks, Box::new(|_| ())),
        Err(FacadeError::NoView)
    );
    assert_eq!(
        ul.create_function(&mut hooks, "hook", Box::new(|_, _, _, _, _, _| ScriptValue(0))),
        Err(FacadeError::NoView)
    );
    assert_eq!(ul.set_js_object_property("hook", ScriptObject(0)), Err(FacadeError::NoView));
    assert_eq!(ul.evaluate_script("1 + 1"), Err(FacadeError::NoView));
    assert_eq!(ul.get_raw_pixels(), Err(FacadeError::NoView));
    assert_eq!(ul.write_png_to_file("out.png"), Err(FacadeError::NoView));
    assert_eq!(ul.log_to_stdout(), Err(FacadeError::NoView));
    assert_eq!(ul.capture_frame(1080), Err(FacadeError::NoView));
    assert!(!ul.is_loading());
    assert_eq!(ul.phase(), Phase::Configured);
    assert_eq!(callbacks.issued(), 0);
    assert_eq!(hooks.issued(), 0);
    assert!(ul.take_calls().is_empty());
}

#[test]
fn a_missing_view_is_reported_before_bad_text() {
    let mut ul = Ultralight::new(None, Some(EngineHandle(1)));
    assert_eq!(ul.load_url("a\0b"), Err(FacadeError::NoView));
    assert_eq!(ul.evaluate_script("\0"), Err(FacadeError::NoView));
    assert!(ul.take_calls().is_empty());
}

#[test]
fn creating_a_view_replaces_the_one_before() {
    let mut ul = Ultralight::new(None, Some(EngineHandle(9)));
    ul.view(1920, 1080, false);
    assert_eq!(ul.current_view(), Some(ViewHandle(0)));
    assert_eq!(ul.phase(), Phase::Viewed);
    ul.view(800, 600, true);
    assert_eq!(ul.current_view(), Some(ViewHandle(1)));
    assert_eq!(
        ul.take_calls(),
        vec![
            EngineCall::CreateView {
                renderer: EngineHandle(9),
                view: ViewHandle(0),
                width: 1920,
                height: 1080,
                transparent: false
            },
            EngineCall::CreateView {
                renderer: EngineHandle(9),
                view: ViewHandle(1),
                width: 800,
                height: 600,
                transparent: true
            },
        ]
    );
}

#[test]
fn loading_goes_through_the_phases() {
    let mut ul = viewed();
    assert_eq!(ul.load_url("https://example.org/"), Ok(()));
    assert_eq!(ul.phase(), Phase::Loading);
    assert!(ul.is_loading());
    assert_eq!(ul.update_until_loaded(true), Ok(true));
    assert_eq!(ul.update_until_loaded(true), Ok(true));
    assert_eq!(ul.phase(), Phase::Loading);
    assert_eq!(ul.update_until_loaded(false), Ok(false));
    assert_eq!(ul.phase(), Phase::Loaded);
    assert!(!ul.is_loading());
    ul.render();
    assert_eq!(ul.phase(), Phase::Rendered);
    assert_eq!(
        ul.take_calls(),
        vec![
            EngineCall::LoadUrl { view: ViewHandle(0), url: "https://example.org/".to_string() },
            EngineCall::Update { renderer: EngineHandle(9) },
            EngineCall::Update { renderer: EngineHandle(9) },
            EngineCall::Render { renderer: EngineHandle(9) },
        ]
    );
    assert_eq!(ul.load_html("<b>x</b>"), Ok(()));
    assert_eq!(ul.phase(), Phase::Loading);
    assert_eq!(
        ul.take_calls(),
        vec![EngineCall::LoadHtml { view: ViewHandle(0), html: "<b>x</b>".to_string() }]
    );
}

#[test]
fn render_before_the_load_ended_does_not_count() {
    let mut ul = viewed();
    ul.render();
    assert_eq!(ul.phase(), Phase::Viewed);
    assert_eq!(ul.update_until_loaded(false), Ok(false));
    assert_eq!(ul.phase(), Phase::Viewed);
    assert_eq!(ul.load_url("about:blank"), Ok(()));
    ul.render();
    assert_eq!(ul.phase(), Phase::Loading);
    ul.update();
    assert_eq!(
        ul.take_calls(),
        vec![
            EngineCall::Render { renderer: EngineHandle(9) },
            EngineCall::LoadUrl { view: ViewHandle(0), url: "about:blank".to_string() },
            EngineCall::Render { renderer: EngineHandle(9) },
            EngineCall::Update { renderer: EngineHandle(9) },
        ]
    );
}

#[test]
fn bounded_wait_times_out() {
    let mut ul = viewed();
    assert_eq!(ul.load_url("https://example.org/"), Ok(()));
    ul.take_calls();
    let mut steps = 2u32;
    assert_eq!(ul.update_until_loaded_within(true, &mut steps), Ok(true));
    assert_eq!(ul.update_until_loaded_within(true, &mut steps), Ok(true));
    assert_eq!(steps, 0);
    assert_eq!(ul.update_until_loaded_within(true, &mut steps), Err(FacadeError::LoadTimedOut));
    assert_eq!(steps, 0);
    assert_eq!(ul.take_calls().len(), 2);
    assert_eq!(ul.phase(), Phase::Loading);
    assert_eq!(ul.update_until_loaded_within(false, &mut steps), Ok(false));
    assert_eq!(ul.phase(), Phase::Loaded);
    assert!(ul.take_calls().is_empty());
}

#[test]
fn text_with_a_zero_byte_is_refused() {
    let mut ul = viewed();
    let mut hooks: Registry<Hook> = Registry::new();
    assert_eq!(ul.load_url("https://exa\0mple.org"), Err(FacadeError::EmbeddedNul));
    assert_eq!(ul.load_html("\0"), Err(FacadeError::EmbeddedNul));
    assert_eq!(ul.evaluate_script("1;\0"), Err(FacadeError::EmbeddedNul));
    assert_eq!(ul.set_js_object_property("ho\0ok", ScriptObject(1)), Err(FacadeError::EmbeddedNul));
    assert_eq!(ul.write_png_to_file("\0out.png"), Err(FacadeError::EmbeddedNul));
    assert_eq!(
        ul.create_function(&mut hooks, "ho\0ok", Box::new(|_, _, _, _, _, _| ScriptValue(0))),
        Err(FacadeError::EmbeddedNul)
    );
    assert_eq!(hooks.issued(), 0);
    assert_eq!(ul.phase(), Phase::Viewed);
    assert!(ul.take_calls().is_empty());
    assert!(contains_nul("a\0"));
    assert!(!contains_nul(""));
    assert!(!contains_nul("plain text \u{e9}"));
}

#[test]
fn installed_hook_is_reached_through_the_returned_object() {
    let mut ul = viewed();
    let mut hooks: Registry<Hook> = Registry::new();
    let calls = Rc::new(Cell::new(0usize));
    let counter = calls.clone();
    let function = ul
        .create_function(
            &mut hooks,
            "hook",
            Box::new(move |_, _, _, argc, argv, _| {
                counter.set(counter.get() + 1);
                ScriptValue(argc as u64 * 1000 + argv.0)
            }),
        )
        .unwrap();
    assert_eq!(
        function,
        FunctionObject { object: ScriptObject(0), private_data: Some(ContextToken(0)) }
    );
    assert_eq!(ul.set_js_object_property("hook", function.object), Ok(()));
    assert_eq!(ul.evaluate_script("hook();"), Ok(()));
    assert_eq!(
        ul.take_calls(),
        vec![
            EngineCall::CreateFunction {
                view: ViewHandle(0),
                name: "hook".to_string(),
                object: ScriptObject(0),
                token: ContextToken(0)
            },
            EngineCall::SetGlobalProperty {
                view: ViewHandle(0),
                name: "hook".to_string(),
                object: ScriptObject(0)
            },
            EngineCall::EvaluateScript { view: ViewHandle(0), script: "hook();".to_string() },
        ]
    );
    let value = script_hook_trampoline(
        &hooks,
        ScriptContext(1),
        function,
        ScriptObject(2),
        4,
        ArgumentPointer(56),
        ExceptionSlot(0),
    );
    assert_eq!(value, Ok(ScriptValue(4056)));
    assert_eq!(calls.get(), 1);
}

#[test]
fn view_callbacks_are_installed_with_their_tokens() {
    let mut ul = viewed();
    let mut callbacks: Registry<ViewCallback> = Registry::new();
    let loaded = Rc::new(Cell::new(0u32));
    let ready = Rc::new(Cell::new(0u32));
    let (l, r) = (loaded.clone(), ready.clone());
    let t_loaded =
        ul.set_finish_loading_callback(&mut callbacks, Box::new(move |_| l.set(l.get() + 1))).unwrap();
    let t_ready =
        ul.set_dom_ready_callback(&mut callbacks, Box::new(move |_| r.set(r.get() + 1))).unwrap();
    assert_eq!(
        ul.take_calls(),
        vec![
            EngineCall::SetFinishLoadingCallback { view: ViewHandle(0), token: ContextToken(0) },
            EngineCall::SetDomReadyCallback { view: ViewHandle(0), token: ContextToken(1) },
        ]
    );
    assert_eq!(view_event_trampoline(&callbacks, t_ready, ViewHandle(0)), Ok(()));
    assert_eq!((loaded.get(), ready.get()), (0, 1));
    assert_eq!(view_event_trampoline(&callbacks, t_loaded, ViewHandle(0)), Ok(()));
    assert_eq!((loaded.get(), ready.get()), (1, 1));
}

#[test]
fn remaining_requests_name_the_view() {
    let mut ul = viewed();
    assert_eq!(ul.scroll(3, -1080), Ok(()));
    assert_eq!(ul.get_scroll_height(), Ok(()));
    assert_eq!(ul.get_raw_pixels(), Ok(()));
    assert_eq!(ul.write_png_to_file("output.png"), Ok(()));
    assert_eq!(ul.log_to_stdout(), Ok(()));
    assert_eq!(
        ul.take_calls(),
        vec![
            EngineCall::Scroll { view: ViewHandle(0), delta_x: 3, delta_y: -1080 },
            EngineCall::EvaluateScript {
                view: ViewHandle(0),
                script: "document.body.scrollHeight".to_string()
            },
            EngineCall::ValueToNumber { view: ViewHandle(0) },
            EngineCall::ReadPixels { view: ViewHandle(0) },
            EngineCall::WritePng { view: ViewHandle(0), path: "output.png".to_string() },
            EngineCall::SetConsoleCallback { view: ViewHandle(0) },
        ]
    );
    assert!(ul.take_calls().is_empty());
}

#[test]
fn capture_step_reads_then_scrolls_then_renders() {
    let mut ul = viewed();
    assert_eq!(ul.load_url("https://example.org/"), Ok(()));
    assert_eq!(ul.update_until_loaded(false), Ok(false));
    ul.take_calls();
    assert_eq!(ul.capture_frame(1080), Ok(()));
    assert_eq!(ul.phase(), Phase::Rendered);
    assert_eq!(
        ul.take_calls(),
        vec![
            EngineCall::ReadPixels { view: ViewHandle(0) },
            EngineCall::Scroll { view: ViewHandle(0), delta_x: 0, delta_y: -1080 },
            EngineCall::Render { renderer: EngineHandle(9) },
        ]
    );
    assert_eq!(ul.capture_frame(0x7FFF_FFFF), Ok(()));
    assert_eq!(
        ul.take_calls()[1],
        EngineCall::Scroll { view: ViewHandle(0), delta_x: 0, delta_y: -2147483647 }
    );
}

#[test]
fn helpers_state_the_request_for_a_given_view() {
    let mut hooks: Registry<Hook> = Registry::new();
    let made =
        create_js_function(ViewHandle(3), &mut hooks, "f", Box::new(|_, _, _, _, _, _| ScriptValue(1)));
    assert_eq!(
        made,
        Ok((
            FunctionObject { object: ScriptObject(0), private_data: Some(ContextToken(0)) },
            EngineCall::CreateFunction {
                view: ViewHandle(3),
                name: "f".to_string(),
                object: ScriptObject(0),
                token: ContextToken(0)
            }
        ))
    );
    let refused =
        create_js_function(ViewHandle(3), &mut hooks, "\0", Box::new(|_, _, _, _, _, _| ScriptValue(1)));
    assert_eq!(refused, Err(FacadeError::EmbeddedNul));
    assert_eq!(hooks.issued(), 1);
    assert_eq!(
        set_js_object_property(ViewHandle(3), "f", ScriptObject(0)),
        Ok(EngineCall::SetGlobalProperty {
            view: ViewHandle(3),
            name: "f".to_string(),
            object: ScriptObject(0)
        })
    );
    assert_eq!(
        set_js_object_property(ViewHandle(3), "f\0", ScriptObject(0)),
        Err(FacadeError::EmbeddedNul)
    );
    assert_eq!(
        evaluate_script(ViewHandle(3), "console.log(123);"),
        Ok(EngineCall::EvaluateScript { view: ViewHandle(3), script: "console.log(123);".to_string() })
    );
    assert_eq!(evaluate_script(ViewHandle(3), "\0"), Err(FacadeError::EmbeddedNul));
}
