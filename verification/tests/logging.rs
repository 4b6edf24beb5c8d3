use sod::logging::Level;
use sod::logging::LogDebugService;
use sod::logging::LogDisplayService;
use sod::logging::LogOptionalDebugService;
use sod::logging::LogOptionalDisplayService;
use sod::Service;
use std::cell::RefCell;

#[test]
fn a_debug_line_is_the_prefix_and_the_debug_rendering() {
    let lines = RefCell::new(Vec::new());
    let sink = |level: Level, line: String| lines.borrow_mut().push((level, line));
    let service = LogDebugService::new(Level::Warn, "got: ", sink);
    assert!(service.process("hello") == Ok("hello"));
    assert!(service.process("") == Ok(""));
    assert_eq!(
        *lines.borrow(),
        vec![
            (Level::Warn, String::from("got: \"hello\"")),
            (Level::Warn, String::from("got: \"\"")),
        ]
    );
}

#[test]
fn a_display_line_is_the_prefix_and_the_display_rendering() {
    let lines = RefCell::new(Vec::new());
    let sink = |level: Level, line: String| lines.borrow_mut().push((level, line));
    let service = LogDisplayService::info("my event: ", sink);
    assert!(service.process("hello world!") == Ok("hello world!"));
    assert!(service.process("") == Ok(""));
    assert_eq!(
        *lines.borrow(),
        vec![
            (Level::Info, String::from("my event: hello world!")),
            (Level::Info, String::from("my event: ")),
        ]
    );
}

#[test]
fn an_optional_service_reports_values_only() {
    let lines = RefCell::new(Vec::new());
    let sink = |level: Level, line: String| lines.borrow_mut().push((level, line));
    let debug = LogOptionalDebugService::error("d ", sink);
    assert!(debug.process(None::<u8>) == Ok(None));
    assert!(debug.process(Some(3u8)) == Ok(Some(3)));
    let display = LogOptionalDisplayService::trace("p ", sink);
    assert!(display.process(None::<u8>) == Ok(None));
    assert!(display.process(Some(4u8)) == Ok(Some(4)));
    assert_eq!(
        *lines.borrow(),
        vec![
            (Level::Error, String::from("d 3")),
            (Level::Trace, String::from("p 4")),
        ]
    );
}

#[test]
fn each_constructor_sets_its_level() {
    let sink = |_: Level, _: String| {};
    assert!(LogDebugService::<u8, _>::new(Level::Info, "", sink).level == Level::Info);
    assert!(LogDebugService::<u8, _>::debug("", sink).level == Level::Debug);
    assert!(LogDebugService::<u8, _>::error("", sink).level == Level::Error);
    assert!(LogDebugService::<u8, _>::info("", sink).level == Level::Info);
    assert!(LogDebugService::<u8, _>::trace("", sink).level == Level::Trace);
    assert!(LogDebugService::<u8, _>::warn("", sink).level == Level::Warn);
    assert!(LogOptionalDebugService::<u8, _>::new(Level::Warn, "", sink).level == Level::Warn);
    assert!(LogOptionalDebugService::<u8, _>::debug("", sink).level == Level::Debug);
    assert!(LogOptionalDebugService::<u8, _>::error("", sink).level == Level::Error);
    assert!(LogOptionalDebugService::<u8, _>::info("", sink).level == Level::Info);
    assert!(LogOptionalDebugService::<u8, _>::trace("", sink).level == Level::Trace);
    assert!(LogOptionalDebugService::<u8, _>::warn("", sink).level == Level::Warn);
    assert!(LogDisplayService::<u8, _>::new(Level::Trace, "", sink).level == Level::Trace);
    assert!(LogDisplayService::<u8, _>::debug("", sink).level == Level::Debug);
    assert!(LogDisplayService::<u8, _>::error("", sink).level == Level::Error);
    assert!(LogDisplayService::<u8, _>::info("", sink).level == Level::Info);
    assert!(LogDisplayService::<u8, _>::trace("", sink).level == Level::Trace);
    assert!(LogDisplayService::<u8, _>::warn("", sink).level == Level::Warn);
    assert!(LogOptionalDisplayService::<u8, _>::new(Level::Debug, "", sink).level == Level::Debug);
    assert!(LogOptionalDisplayService::<u8, _>::debug("", sink).level == Level::Debug);
    assert!(LogOptionalDisplayService::<u8, _>::error("", sink).level == Level::Error);
    assert!(LogOptionalDisplayService::<u8, _>::info("", sink).level == Level::Info);
    assert!(LogOptionalDisplayService::<u8, _>::trace("", sink).level == Level::Trace);
    assert!(LogOptionalDisplayService::<u8, _>::warn("", sink).level == Level::Warn);
    assert_eq!(LogDisplayService::<u8, _>::warn("kept", sink).prefix, "kept");
}
