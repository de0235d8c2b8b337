//! Casting between the handle, the base wrappers and the concrete wrappers.
use synthizer::{
    BoxArena, BufferGenerator, Context, DirectSource, EchoCall, EchoTapConfig, EngineCall,
    FastSineBankGenerator, Generator, GlobalEcho, GlobalFdnReverb, Handle, NoiseGenerator,
    ObjectCall, ObjectType, SineBankWave, Source, Source3D, ToSyzHandle,
};

#[test]
fn test_casting() {
    let ctx = Context::new(0, 1, "").expect("the constructor call succeeded");
    assert_eq!(ctx.to_syz_handle(), 1);
    let buffer_generator = BufferGenerator::new(0, 2, "").expect("the constructor call succeeded");
    assert!(matches!(
        buffer_generator.cast_to::<Generator>(Ok(ObjectType::BufferGenerator)),
        Ok(Some(_))
    ));
    assert!(matches!(
        buffer_generator.cast_to::<Handle>(Ok(ObjectType::BufferGenerator)),
        Ok(Some(_))
    ));

    let (_, call): (Generator, EngineCall) =
        synthizer::try_cast_from(buffer_generator.handle(), Ok(ObjectType::BufferGenerator))
            .expect("TryFrom should work");
    assert_eq!(call, EngineCall::IncRef(2));
    let (h, _): (Handle, EngineCall) =
        synthizer::try_cast_from(buffer_generator.handle(), Ok(ObjectType::BufferGenerator))
            .expect("TryFrom should work");
    let (back, _): (BufferGenerator, EngineCall) =
        synthizer::try_cast_from(&h, Ok(ObjectType::BufferGenerator)).expect("TryFrom should work");
    assert_eq!(back.to_syz_handle(), 2);

    let src3d = Source3D::new(0, 3, "").expect("the constructor call succeeded");
    let (src, _) = src3d.cast_to::<Source>(Ok(ObjectType::Source3D)).unwrap().unwrap();
    // Make sure casting down works, by reference and by value.
    let (down, _): (Source3D, EngineCall) =
        synthizer::try_cast_from(src.handle(), Ok(ObjectType::Source3D)).unwrap();
    assert_eq!(down.to_syz_handle(), 3);
    let (down, _): (Source3D, EngineCall) =
        synthizer::try_cast_from(&src.into_handle(), Ok(ObjectType::Source3D)).unwrap();
    assert_eq!(down.to_syz_handle(), 3);
}

#[test]
fn upcast_is_a_plain_conversion() {
    let noise = NoiseGenerator::new(0, 7, "").unwrap();
    let generator: Generator = noise.into();
    assert_eq!(generator.to_syz_handle(), 7);
    let handle: Handle = generator.into();
    assert_eq!(handle.to_syz_handle(), 7);
}

#[test]
fn downcast_to_the_wrong_type_is_no_match() {
    let h = Handle::new(9);
    let r = h.cast_to::<BufferGenerator>(Ok(ObjectType::NoiseGenerator));
    assert!(matches!(r, Ok(None)));
    let r = h.cast_to::<Generator>(Ok(ObjectType::NoiseGenerator));
    assert!(matches!(r, Ok(Some(_))));
    let r = h.cast_to::<NoiseGenerator>(Ok(ObjectType::NoiseGenerator));
    match r {
        Ok(Some((g, call))) => {
            assert_eq!(g.to_syz_handle(), 9);
            assert_eq!(call, EngineCall::IncRef(9));
        }
        _ => panic!("the tag matches"),
    }
}

#[test]
fn failed_tag_query_is_an_error() {
    let h = Handle::new(9);
    let reply = h.get_type(3, 0, "not initialized");
    let r = h.cast_to::<Generator>(reply);
    match r {
        Err(e) => {
            assert_eq!(e.message(), "not initialized");
            assert_eq!(e.code(), 3);
        }
        _ => panic!("the query failed"),
    }
    let mismatch: Result<(Source, EngineCall), _> =
        synthizer::try_cast_from(&h, Ok(ObjectType::Buffer));
    assert_eq!(mismatch.unwrap_err().message(), "Type mismatch");
}

#[test]
fn capabilities_name_their_calls() {
    let ctx = Context::new(0, 1, "").unwrap();
    assert_eq!(ctx.pause(), ObjectCall::Pause(1));
    assert_eq!(ctx.play(), ObjectCall::Play(1));
    assert_eq!(ctx.enable_events(), ObjectCall::EnableEvents(1));
    let source = DirectSource::new(0, 2, "").unwrap();
    let generator = BufferGenerator::new(0, 3, "").unwrap();
    assert_eq!(
        source.add_generator(&generator),
        ObjectCall::AddGenerator { source: 2, generator: 3 }
    );
    assert_eq!(
        source.remove_generator(&Handle::new(4)),
        ObjectCall::RemoveGenerator { source: 2, generator: 4 }
    );
    assert_eq!(generator.pause(), ObjectCall::Pause(3));
    let reverb = GlobalFdnReverb::new(0, 5, "").unwrap();
    assert_eq!(reverb.reset(), ObjectCall::ResetEffect(5));
}

#[test]
fn constructors_read_the_reply() {
    let e = Context::new(8, 0, "no device").unwrap_err();
    assert_eq!(e.message(), "no device");
    assert_eq!(e.code(), 8);
    let g = Generator::new(0, 6, "").unwrap();
    let (copy, call) = g.clone_ref();
    assert_eq!(copy.to_syz_handle(), 6);
    assert_eq!(call, EngineCall::IncRef(6));
    assert_eq!(copy.release(), EngineCall::DecRef(6));
    assert_eq!(g.get_type(0, 4, "").unwrap(), ObjectType::NoiseGenerator);
    assert_eq!(g.handle().to_syz_handle(), 6);
}

#[test]
fn echo_taps_and_sine_banks() {
    let echo = GlobalEcho::new(0, 9, "").unwrap();
    assert_eq!(echo.set_taps(&vec![]), EchoCall::ClearTaps { target: 9 });
    assert_eq!(echo.clear_taps(), EchoCall::ClearTaps { target: 9 });
    let tap = EchoTapConfig { delay: 1, gain_l: 2, gain_r: 3 };
    assert_eq!(echo.set_taps(&vec![tap, tap]), EchoCall::SetTaps { target: 9, count: 2 });
    let mut arena: BoxArena<u8> = BoxArena::new();
    let r = FastSineBankGenerator::from_waves(&vec![], &mut arena, |_| {
        FastSineBankGenerator::new(0, 1, "")
    });
    assert_eq!(r.unwrap_err().message(), "Cannot build FastSineBankGenerator with no waves");
    assert_eq!(arena.len(), 0);
    let r = FastSineBankGenerator::from_waves(&vec![SineBankWave::new(1, 0, 1)], &mut arena, |_| {
        FastSineBankGenerator::new(0, 1, "")
    });
    assert!(r.is_ok());
    assert_eq!(arena.len(), 1);
}
