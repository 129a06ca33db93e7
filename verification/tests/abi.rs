use pollua::abi::{
    lua_isboolean, lua_isfunction, lua_islightuserdata, lua_isnil, lua_isnone, lua_isnoneornil,
    lua_istable, lua_isthread, lua_upvalueindex, LUAI_MAXSTACK, LUA_ERRERR, LUA_ERRFILE,
    LUA_ERRGCMM, LUA_ERRMEM, LUA_ERRRUN, LUA_ERRSYNTAX, LUA_MINSTACK, LUA_MULTRET, LUA_NUMTAGS,
    LUA_OK, LUA_REGISTRYINDEX, LUA_RIDX_GLOBALS, LUA_RIDX_LAST, LUA_RIDX_MAINTHREAD, LUA_TBOOLEAN,
    LUA_TFUNCTION, LUA_TLIGHTUSERDATA, LUA_TNIL, LUA_TNONE, LUA_TNUMBER, LUA_TSTRING, LUA_TTABLE,
    LUA_TTHREAD, LUA_TUSERDATA, LUA_YIELD,
};
use pollua::native::{lua_pop, lua_pushglobaltable, lua_replace, LoadingMode, Op, Reply};

#[test]
fn constants_match_the_published_protocol() {
    assert_eq!(
        [LUA_OK, LUA_YIELD, LUA_ERRRUN, LUA_ERRSYNTAX, LUA_ERRMEM, LUA_ERRGCMM, LUA_ERRERR],
        [0, 1, 2, 3, 4, 5, 6]
    );
    assert_eq!(LUA_ERRFILE, 7);
    assert_eq!(
        [
            LUA_TNIL,
            LUA_TBOOLEAN,
            LUA_TLIGHTUSERDATA,
            LUA_TNUMBER,
            LUA_TSTRING,
            LUA_TTABLE,
            LUA_TFUNCTION,
            LUA_TUSERDATA,
            LUA_TTHREAD
        ],
        [0, 1, 2, 3, 4, 5, 6, 7, 8]
    );
    assert_eq!(LUA_TNONE, -1);
    assert_eq!(LUA_NUMTAGS, 9);
    assert_eq!(LUA_MULTRET, -1);
    assert_eq!(LUA_MINSTACK, 20);
    assert_eq!(LUAI_MAXSTACK, 1_000_000);
    assert_eq!(LUA_REGISTRYINDEX, -LUAI_MAXSTACK - 1000);
    assert_eq!([LUA_RIDX_MAINTHREAD, LUA_RIDX_GLOBALS, LUA_RIDX_LAST], [1, 2, 2]);
}

#[test]
fn type_predicates_tell_one_tag_each() {
    let preds: [(fn(i32) -> i32, i32); 6] = [
        (lua_isboolean, LUA_TBOOLEAN),
        (lua_isfunction, LUA_TFUNCTION),
        (lua_islightuserdata, LUA_TLIGHTUSERDATA),
        (lua_isnil, LUA_TNIL),
        (lua_istable, LUA_TTABLE),
        (lua_isthread, LUA_TTHREAD),
    ];
    for (pred, own) in preds {
        for tag in LUA_TNONE..LUA_NUMTAGS {
            assert_eq!(pred(tag), (tag == own) as i32);
        }
    }
    assert_eq!(lua_isnone(LUA_TNONE), 1);
    assert_eq!(lua_isnone(LUA_TNIL), 0);
    assert_eq!(lua_isnoneornil(LUA_TNONE), 1);
    assert_eq!(lua_isnoneornil(LUA_TNIL), 1);
    assert_eq!(lua_isnoneornil(LUA_TBOOLEAN), 0);
}

#[test]
fn upvalue_indices_lie_below_the_registry() {
    assert_eq!(lua_upvalueindex(1), -1_001_001);
    assert_eq!(lua_upvalueindex(255), -1_001_255);
    assert_eq!(lua_upvalueindex(0), LUA_REGISTRYINDEX);
}

#[test]
fn pop_sets_the_top_below_the_popped_values() {
    assert_eq!(lua_pop(1), Op::SetTop { index: -2 });
    assert_eq!(lua_pop(0), Op::SetTop { index: -1 });
    assert_eq!(lua_pop(3), Op::SetTop { index: -4 });
    assert_eq!(lua_pop(-1), Op::SetTop { index: 0 });
    assert_eq!(lua_pop(i32::MAX), Op::SetTop { index: i32::MIN });
    assert_eq!(lua_pop(i32::MIN), Op::SetTop { index: i32::MAX });
}

#[test]
fn replace_copies_then_pops() {
    assert_eq!(lua_replace(-2), (Op::Copy { from: -1, to: -2 }, Op::SetTop { index: -2 }));
    assert_eq!(lua_replace(3), (Op::Copy { from: -1, to: 3 }, Op::SetTop { index: -2 }));
}

#[test]
fn globals_come_from_the_registry() {
    assert_eq!(lua_pushglobaltable(), Op::RawGetI { index: -1_001_000, n: 2 });
}

#[test]
fn mode_tags_pass_through() {
    assert_eq!(LoadingMode::Binary.tag(), "b");
    assert_eq!(LoadingMode::Text.tag(), "t");
    assert_eq!(LoadingMode::Auto.tag(), "bt");
}

#[test]
fn every_call_has_one_kind_of_answer() {
    let replies = || {
        vec![
            Reply::Unit,
            Reply::Created(true),
            Reply::Number(503),
            Reply::Status(0),
            Reply::Tag(0),
            Reply::Depth(0),
            Reply::Text(None),
        ]
    };
    let ops = [
        (Op::NewState { default_allocator: true }, 1),
        (Op::AtPanic, 0),
        (Op::Version, 2),
        (Op::Close, 0),
        (Op::GetTop, 5),
        (Op::SetTop { index: 0 }, 0),
        (Op::ToLString { index: -1 }, 6),
        (Op::PushVersionCheck, 0),
        (Op::PushLString, 0),
        (Op::RawGetI { index: 1, n: 1 }, 4),
        (Op::RawGet { index: 1 }, 4),
        (Op::Copy { from: 1, to: 2 }, 0),
        (Op::LoadBuffer { mode: LoadingMode::Auto }, 3),
        (Op::PCall { nargs: 0, nresults: 0 }, 3),
    ];
    for (op, kind) in ops {
        for (i, reply) in replies().iter().enumerate() {
            assert_eq!(op.answered_by(reply), i == kind, "{:?} {:?}", op, reply);
        }
    }
}

#[test]
fn depth_after_follows_the_documented_effects() {
    let unit = Reply::Unit;
    assert_eq!(Op::PushLString.depth_after(&unit, 3), Some(4));
    assert_eq!(Op::PushLString.depth_after(&unit, LUAI_MAXSTACK), None);
    assert_eq!(Op::PushLString.depth_after(&Reply::Tag(0), 3), None);
    assert_eq!(Op::SetTop { index: -2 }.depth_after(&unit, 3), Some(2));
    assert_eq!(Op::SetTop { index: -4 }.depth_after(&unit, 3), Some(0));
    assert_eq!(Op::SetTop { index: -5 }.depth_after(&unit, 3), None);
    assert_eq!(Op::SetTop { index: 7 }.depth_after(&unit, 3), Some(7));
    assert_eq!(Op::GetTop.depth_after(&Reply::Depth(3), 3), Some(3));
    assert_eq!(Op::GetTop.depth_after(&Reply::Depth(4), 3), None);
    assert_eq!(Op::ToLString { index: -1 }.depth_after(&Reply::Text(None), 0), None);
    assert_eq!(Op::ToLString { index: -1 }.depth_after(&Reply::Text(None), 1), Some(2));
    assert_eq!(Op::RawGet { index: -2 }.depth_after(&Reply::Tag(0), 1), None);
    assert_eq!(Op::RawGet { index: -2 }.depth_after(&Reply::Tag(0), 2), Some(2));
    assert_eq!(
        Op::RawGetI { index: LUA_REGISTRYINDEX, n: 2 }.depth_after(&Reply::Tag(5), 0),
        Some(1)
    );
    assert_eq!(Op::Copy { from: -1, to: -2 }.depth_after(&unit, 2), Some(2));
    assert_eq!(Op::Copy { from: -1, to: -2 }.depth_after(&unit, 1), None);
    let call = Op::PCall { nargs: 2, nresults: 1 };
    assert_eq!(call.depth_after(&Reply::Status(0), 5), Some(3));
    assert_eq!(call.depth_after(&Reply::Status(2), 5), Some(3));
    assert_eq!(call.depth_after(&Reply::Status(0), 2), None);
    let all = Op::PCall { nargs: 2, nresults: LUA_MULTRET };
    assert_eq!(all.depth_after(&Reply::Status(0), 5), None);
    assert_eq!(all.depth_after(&Reply::Status(2), 5), Some(3));
    assert_eq!(Op::PCall { nargs: 0, nresults: 4 }.depth_after(&Reply::Status(0), 1), Some(4));
    assert_eq!(Op::PCall { nargs: 0, nresults: -2 }.depth_after(&Reply::Status(0), 1), None);
    assert_eq!(Op::Close.depth_after(&unit, -1), None);
}
