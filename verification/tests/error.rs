use pollua::abi::{
    LUA_ERRERR, LUA_ERRFILE, LUA_ERRGCMM, LUA_ERRMEM, LUA_ERRRUN, LUA_ERRSYNTAX, LUA_OK, LUA_YIELD,
};
use pollua::classify::Classify;
use pollua::error::{message_text, Error, ErrorKind, ThreadError};
use pollua::native::Reply;

#[test]
fn every_status_has_its_kind() {
    assert_eq!(ErrorKind::from_status(LUA_OK), None);
    assert_eq!(ErrorKind::from_status(LUA_ERRRUN), Some(ErrorKind::Runtime));
    assert_eq!(ErrorKind::from_status(LUA_ERRSYNTAX), Some(ErrorKind::Syntax));
    assert_eq!(ErrorKind::from_status(LUA_ERRMEM), Some(ErrorKind::OutOfMemory));
    assert_eq!(ErrorKind::from_status(LUA_ERRERR), Some(ErrorKind::MessageHandler));
    assert_eq!(ErrorKind::from_status(LUA_ERRGCMM), Some(ErrorKind::GarbageCollection));
    assert_eq!(ErrorKind::from_status(LUA_ERRFILE), Some(ErrorKind::Io));
}

#[test]
fn a_status_without_a_name_is_an_io_error() {
    for code in [LUA_YIELD, 8, 100, -1, i32::MIN, i32::MAX] {
        assert_eq!(ErrorKind::from_status(code), Some(ErrorKind::Io));
    }
}

#[test]
fn well_formed_bytes_are_their_text() {
    assert_eq!(message_text(Some(b"boom".to_vec())).as_deref(), Some("boom"));
    assert_eq!(message_text(Some("héllo ✓".as_bytes().to_vec())).as_deref(), Some("héllo ✓"));
    assert_eq!(message_text(Some(Vec::new())).as_deref(), Some(""));
    assert_eq!(message_text(None), None);
}

#[test]
fn malformed_bytes_are_replaced_not_dropped() {
    let text = message_text(Some(vec![b'a', 0xff, b'b'])).unwrap();
    assert_eq!(text, "a\u{fffd}b");
    assert_ne!(text.as_bytes(), &[b'a', 0xff, b'b']);
}

#[test]
fn malformed_message_reaches_the_error_as_text() {
    let c = Classify::start(LUA_ERRRUN)
        .resume(Reply::Depth(1))
        .resume(Reply::Text(Some(vec![0xc3, 0x28])))
        .resume(Reply::Unit);
    let e = c.outcome().unwrap().unwrap_err();
    assert_eq!(e.msg.as_deref(), Some("\u{fffd}("));
}

#[test]
fn a_machine_without_text_for_the_value_gives_no_message() {
    let c = Classify::start(LUA_ERRMEM)
        .resume(Reply::Depth(2))
        .resume(Reply::Text(None))
        .resume(Reply::Unit);
    let e = c.outcome().unwrap().unwrap_err();
    assert_eq!(e.kind, ErrorKind::OutOfMemory);
    assert_eq!(e.msg, None);
}

#[test]
fn error_text_names_the_kind_and_the_message() {
    let e = Error::new(ErrorKind::Runtime, Some("boom".to_string()));
    assert_eq!(e.to_text(), "runtime error: boom");
    assert_eq!(Error::new(ErrorKind::Syntax, None).to_text(), "syntax error");
    assert_eq!(ErrorKind::OutOfMemory.description(), "out of memory");
    assert_eq!(ErrorKind::MessageHandler.description(), "error in the message handler");
    assert_eq!(ErrorKind::GarbageCollection.description(), "error in a finalizer");
    assert_eq!(ErrorKind::Io.description(), "input/output error");
}

#[test]
fn thread_error_text() {
    let lua = ThreadError::from(Error::new(ErrorKind::Runtime, Some("boom".to_string())));
    assert!(matches!(lua, ThreadError::Lua(_)));
    assert_eq!(lua.description(), "lua error");
    assert_eq!(lua.to_text(), "lua error: runtime error: boom");
    let panic = ThreadError::Panic(Some("oops".to_string()));
    assert_eq!(panic.description(), "panicked while running thread");
    assert_eq!(panic.to_text(), "panicked while running thread: Any { .. }");
    assert_eq!(ThreadError::Panic(None).to_text(), "panicked while running thread: Any { .. }");
}
