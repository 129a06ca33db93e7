use pollua::boundary::{alloc_default, panic_text, AllocAction, PanicHook};
use pollua::classify::Classify;
use pollua::error::{Error, ErrorKind};
use pollua::native::{Op, Reply};

#[test]
fn zero_new_size_frees() {
    assert_eq!(alloc_default(false, 64, 0), AllocAction::Free { size: 64 });
    assert!(alloc_default(false, 64, 0).returns_null());
}

#[test]
fn zero_new_size_of_no_block_does_nothing() {
    // With no block the old size is a tag of the machine, not a length.
    assert_eq!(alloc_default(true, 5, 0), AllocAction::Nothing);
    assert!(alloc_default(true, 5, 0).returns_null());
}

#[test]
fn null_block_allocates_afresh() {
    assert_eq!(alloc_default(true, 0, 16), AllocAction::Allocate { size: 16 });
    assert_eq!(alloc_default(true, 7, 16), AllocAction::Allocate { size: 16 });
    assert!(!alloc_default(true, 0, 16).returns_null());
}

#[test]
fn anything_else_resizes() {
    assert_eq!(alloc_default(false, 16, 32), AllocAction::Resize { old: 16, new: 32 });
    assert_eq!(alloc_default(false, 32, 8), AllocAction::Resize { old: 32, new: 8 });
    assert_eq!(
        alloc_default(false, usize::MAX, usize::MAX),
        AllocAction::Resize { old: usize::MAX, new: usize::MAX }
    );
}

#[test]
fn a_counting_ledger_of_the_default_allocator_balances() {
    let mut held: i64 = 0;
    let mut size = 0usize;
    let mut null = true;
    for nsize in [24usize, 100, 8, 8, 0, 0, 3, 0] {
        match alloc_default(null, size, nsize) {
            AllocAction::Nothing => {}
            AllocAction::Free { size } => held -= size as i64,
            AllocAction::Allocate { size } => held += size as i64,
            AllocAction::Resize { old, new } => held += new as i64 - old as i64,
        }
        size = nsize;
        null = nsize == 0;
        assert_eq!(held, nsize as i64);
    }
    assert_eq!(held, 0);
}

#[test]
fn panic_text_carries_the_message() {
    let e = Err(Error::new(ErrorKind::Runtime, Some("boom".to_string())));
    assert_eq!(panic_text(&e).as_deref(), Some("Lua panic: boom"));
    let e = Err(Error::new(ErrorKind::Runtime, None));
    assert_eq!(panic_text(&e).as_deref(), Some("Lua panic: <no error message>"));
    assert_eq!(panic_text(&Ok(())), None);
}

#[test]
fn hook_classifies_once_and_not_when_entered_again() {
    let mut hook = PanicHook::new();
    let c: Classify = hook.at_panic().unwrap();
    assert_eq!(c.pending(), Some(Op::GetTop));
    let c = c.resume(Reply::Depth(0));
    let outcome = c.outcome().unwrap();
    assert_eq!(outcome.as_ref().unwrap_err().kind, ErrorKind::Runtime);
    assert!(panic_text(&outcome).is_some());
    assert!(hook.at_panic().is_none());
    assert!(hook.at_panic().is_none());
}
