//! The userdata box of a constructor call, and what becomes of it.
use synthizer::{
    drop_userdata_cb, wrap_constructor, wrap_file_constructor, BoxArena, Buffer, Context,
    EngineCall, Error, StreamHandle, StreamingGenerator, ToSyzHandle, UserdataBox,
};

#[test]
fn a_failed_constructor_frees_its_box_at_once() {
    let mut arena: BoxArena<u32> = BoxArena::new();
    let before = arena.len();
    let mut seen = 0;
    let r: Result<Context, Error> = wrap_constructor(&mut arena, |token| {
        seen = token;
        Context::new(5, 0, "out of memory")
    });
    let err = r.err().unwrap();
    assert_eq!(err.message(), "out of memory");
    assert_eq!(err.code(), 5);
    assert_eq!(arena.len(), before);
    assert!(!arena.contains(seen));
}

#[test]
fn a_successful_constructor_leaves_its_box_to_the_engine() {
    let mut arena: BoxArena<u32> = BoxArena::new();
    let mut seen = 0;
    let ctx = wrap_constructor(&mut arena, |token| {
        seen = token;
        Context::new(0, 12, "")
    })
    .ok()
    .unwrap();
    assert_eq!(ctx.to_syz_handle(), 12);
    assert_eq!(arena.len(), 1);
    assert!(arena.contains(seen));
    // The engine frees the box when the object dies.
    drop_userdata_cb(&mut arena, seen);
    assert_eq!(arena.len(), 0);
    assert!(!arena.contains(seen));
}

#[test]
fn a_constructor_call_uses_its_token_up() {
    let mut arena: BoxArena<u32> = BoxArena::new();
    let mut tokens = Vec::new();
    for status in [1, 0, 1, 0] {
        let _ = wrap_constructor(&mut arena, |token| {
            tokens.push(token);
            Context::new(status, 1, "failed")
        });
    }
    assert_eq!(tokens[1], tokens[0] + 1);
    assert_eq!(tokens[2], tokens[1] + 1);
    assert_eq!(tokens[3], tokens[2] + 1);
    assert_eq!(arena.len(), 2);
    // A path with a NUL makes no box and uses no token.
    let r: Result<u8, Error> = wrap_file_constructor("a\0", &mut arena, |_| Ok(1));
    assert!(r.is_err());
    let next = arena.allocate(UserdataBox::new());
    assert_eq!(next, tokens[3] + 1);
}

#[test]
fn tokens_are_not_reused_while_a_box_is_out() {
    let mut arena: BoxArena<u32> = BoxArena::new();
    let first = arena.allocate(UserdataBox::new());
    let second = arena.allocate(UserdataBox::new());
    assert_ne!(first, second);
    arena.free(first);
    let third = arena.allocate(UserdataBox::new());
    assert_ne!(third, second);
    assert_eq!(arena.len(), 2);
}

#[test]
fn a_box_holds_the_payload() {
    let mut b: UserdataBox<String> = UserdataBox::new();
    assert_eq!(b.get_userdata(), None);
    b.set_userdata(Some("x".to_string()));
    assert_eq!(b.get_userdata(), Some(&"x".to_string()));
    b.set_userdata(None);
    assert_eq!(b.get_userdata(), None);
    let mut arena: BoxArena<String> = BoxArena::new();
    let r: Result<(), Error> = b.consume(&mut arena, |_| Err(Error::rust_error("no")));
    assert_eq!(r.err().unwrap().message(), "no");
    assert_eq!(arena.len(), 0);
}

#[test]
fn a_path_with_a_nul_reaches_no_constructor() {
    let mut arena: BoxArena<u32> = BoxArena::new();
    let mut called = false;
    let r = Buffer::from_file("bad\0path", &mut arena, |_| {
        called = true;
        Buffer::new(0, 1, "")
    });
    assert_eq!(r.err().unwrap().message(), "Path contains a NULL byte");
    assert!(!called);
    assert_eq!(arena.len(), 0);
    let r = Buffer::from_file("good/path.wav", &mut arena, |_| Buffer::new(0, 1, ""));
    assert_eq!(r.ok().unwrap().to_syz_handle(), 1);
    assert_eq!(arena.len(), 1);
    let r: Result<u8, Error> = wrap_file_constructor("a\0", &mut arena, |_| Ok(1));
    assert!(r.is_err());
    let r = StreamingGenerator::from_file("a.ogg", &mut arena, |_| {
        StreamingGenerator::new(3, 0, "cannot decode")
    });
    assert_eq!(r.err().unwrap().message(), "cannot decode");
    assert_eq!(arena.len(), 1);
}

#[test]
fn a_stream_handle_is_used_up_by_the_constructor() {
    let mut arena: BoxArena<u32> = BoxArena::new();
    let sh = StreamHandle::from_vec(vec![1, 2, 3], 0, 40, "").ok().unwrap();
    let mut seen = (0, 0);
    let (r, call) = StreamingGenerator::from_stream_handle(sh, &mut arena, |stream, token| {
        seen = (stream, token);
        StreamingGenerator::new(0, 41, "")
    });
    assert_eq!(r.ok().unwrap().to_syz_handle(), 41);
    assert_eq!(seen.0, 40);
    assert_eq!(call, EngineCall::DecRef(40));
    assert!(arena.contains(seen.1));

    let sh = StreamHandle::from_vec(vec![1, 2, 3], 0, 50, "").ok().unwrap();
    let (r, call) = sh.with_userdata(&mut arena, |_, _| StreamingGenerator::new(2, 0, "bad data"));
    assert_eq!(r.err().unwrap().message(), "bad data");
    assert_eq!(call, EngineCall::DecRef(50));
    assert_eq!(arena.len(), 1);
}

#[test]
fn stream_params_are_checked_before_the_constructor() {
    let mut arena: BoxArena<u32> = BoxArena::new();
    let r = StreamingGenerator::from_stream_params("pro\0to", "p", 0, &mut arena, |_| {
        StreamingGenerator::new(0, 1, "")
    });
    assert_eq!(r.err().unwrap().message(), "Unable to convert protocol to a C string");
    let r = StreamingGenerator::from_stream_params("proto", "p\0", 0, &mut arena, |_| {
        StreamingGenerator::new(0, 1, "")
    });
    assert_eq!(r.err().unwrap().message(), "Unable to convert path to a C string");
    assert_eq!(arena.len(), 0);
    let r = StreamingGenerator::from_stream_params("proto", "p", 0, &mut arena, |_| {
        StreamingGenerator::new(0, 1, "")
    });
    assert!(r.is_ok());
    assert_eq!(arena.len(), 1);
}
