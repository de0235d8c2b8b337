//! Properties, automation batches, routes and delete behavior.
use synthizer::{
    AutomationAction, AutomationBatch, AutomationCommand, BiquadConfig, BoolProperty, Context,
    DeleteBehaviorCall, DeleteBehaviorConfig, DeleteBehaviorConfigBuilder, DirectSource,
    Double3Property, Double6Property, DoubleProperty, EngineCall, EnumProperty, GlobalEcho,
    Handle, IntProperty, InterpolationType, ObjectProperty, PannerStrategy, PropertyValue,
    PropertyWrite, RouteCall, RouteConfig, RouteConfigBuilder, SineBankWave, SyzProperty,
};

#[test]
fn int_property() {
    let h = Handle::new(4);
    let p = IntProperty::new(&h, 21);
    assert_eq!(p.as_i32(), 21);
    assert_eq!(p.get(0, -8, "").unwrap(), -8);
    let e = p.get(2, -8, "no such property").unwrap_err();
    assert_eq!(e.message(), "no such property");
    assert_eq!(
        p.set(6),
        PropertyWrite { target: 4, property: 21, value: PropertyValue::Int(6) }
    );
}

#[test]
fn bool_property() {
    let h = Handle::new(4);
    let p = BoolProperty::new(&h, 3);
    assert_eq!(p.as_i32(), 3);
    assert!(!p.get(0, 0, "").unwrap());
    assert!(p.get(0, 1, "").unwrap());
    assert!(p.get(0, -5, "").unwrap());
    assert!(p.get(1, 1, "failed").is_err());
    assert_eq!(p.set(true).value, PropertyValue::Int(1));
    assert_eq!(p.set(false).value, PropertyValue::Int(0));
    assert_eq!(p.set(true).target, 4);
    assert_eq!(p.set(true).property, 3);
}

#[test]
fn enum_property() {
    let h = Handle::new(4);
    let p: EnumProperty<PannerStrategy> = EnumProperty::new(&h, 9);
    assert_eq!(p.as_i32(), 9);
    assert_eq!(p.get(0, 2, "").unwrap(), PannerStrategy::Stereo);
    assert_eq!(p.get(0, 3, "").unwrap_err().message(), "Unknown value of an enumeration");
    assert_eq!(p.get(5, 2, "dead object").unwrap_err().message(), "dead object");
    assert_eq!(
        p.set(PannerStrategy::Hrtf),
        PropertyWrite { target: 4, property: 9, value: PropertyValue::Int(1) }
    );
}

#[test]
fn double_and_object_properties() {
    let h = Handle::new(4);
    let one = 1.0f64.to_bits();
    let p = DoubleProperty::new(&h, 2);
    assert_eq!(f64::from_bits(p.get(0, one, "").unwrap()), 1.0);
    assert_eq!(p.set(one).value, PropertyValue::Double(one));
    let position = Double3Property::new(&h, 5);
    assert_eq!(position.get(0, (1, 2, 3), "").unwrap(), (1, 2, 3));
    assert_eq!(position.set((1, 2, 3)).value, PropertyValue::Double3(1, 2, 3));
    assert_eq!(position.as_i32(), 5);
    let orientation = Double6Property::new(&h, 6);
    assert_eq!(orientation.get(0, (1, 2, 3, 4, 5, 6), "").unwrap(), (1, 2, 3, 4, 5, 6));
    assert!(orientation.get(1, (1, 2, 3, 4, 5, 6), "bad").is_err());
    assert_eq!(orientation.as_i32(), 6);
    let po = ObjectProperty::new(&h, 7);
    let other = Handle::new(99);
    assert_eq!(
        po.set(&other),
        PropertyWrite { target: 4, property: 7, value: PropertyValue::Object(99) }
    );
    assert_eq!(po.as_i32(), 7);
}

#[test]
fn automation_commands_queue_up_until_a_flush() {
    let ctx = Context::new(0, 1, "").unwrap();
    let target = Handle::new(8);
    let mut batch = AutomationBatch::new(&ctx, 0, 30, "").ok().unwrap();
    assert_eq!(batch.get_handle(), 30);
    assert!(batch.pending().is_empty());
    batch.set_double(&target, DoubleProperty::new(&target, 2), 11, 12, InterpolationType::Linear);
    batch.set_double3(
        &target,
        DoubleProperty::new(&target, 3),
        11,
        (1, 2, 3),
        InterpolationType::Off,
    );
    batch.set_double6(
        &target,
        DoubleProperty::new(&target, 4),
        11,
        (1, 2, 3, 4, 5, 6),
        InterpolationType::Linear,
    );
    batch.clear_all_properties(&target);
    batch.clear_property(&target, IntProperty::new(&target, 5));
    batch.send_user_event(&target, 13, 77);
    batch.clear_user_events(&target);
    let expected = vec![
        AutomationCommand {
            target: 8,
            time: 11,
            action: AutomationAction::AppendProperty {
                property: 2,
                values: (12, 0, 0, 0, 0, 0),
                interpolation: InterpolationType::Linear,
            },
        },
        AutomationCommand {
            target: 8,
            time: 11,
            action: AutomationAction::AppendProperty {
                property: 3,
                values: (1, 2, 3, 0, 0, 0),
                interpolation: InterpolationType::Off,
            },
        },
        AutomationCommand {
            target: 8,
            time: 11,
            action: AutomationAction::AppendProperty {
                property: 4,
                values: (1, 2, 3, 4, 5, 6),
                interpolation: InterpolationType::Linear,
            },
        },
        AutomationCommand { target: 8, time: 0, action: AutomationAction::ClearAllProperties },
        AutomationCommand {
            target: 8,
            time: 0,
            action: AutomationAction::ClearProperty { property: 5 },
        },
        AutomationCommand {
            target: 8,
            time: 13,
            action: AutomationAction::SendUserEvent { param: 77 },
        },
        AutomationCommand { target: 8, time: 0, action: AutomationAction::ClearEvents },
    ];
    assert_eq!(batch.pending(), &expected);
    // A failed flush keeps the commands.
    assert_eq!(batch.flush(1, "busy").unwrap_err().message(), "busy");
    assert_eq!(batch.pending().len(), 7);
    assert!(batch.flush(0, "").is_ok());
    assert!(batch.pending().is_empty());
    batch.clear_user_events(&target);
    let (r, call) = batch.execute(0, "", 0, "");
    assert!(r.is_ok());
    assert_eq!(call, EngineCall::DecRef(30));
}

#[test]
fn automation_execute_reports_the_first_failure() {
    let ctx = Context::new(0, 1, "").unwrap();
    let batch = AutomationBatch::new(&ctx, 0, 30, "").ok().unwrap();
    let (r, _) = batch.execute(2, "flush failed", 3, "execute failed");
    assert_eq!(r.unwrap_err().message(), "flush failed");
    let batch = AutomationBatch::new(&ctx, 0, 31, "").ok().unwrap();
    let (r, call) = batch.execute(0, "", 3, "execute failed");
    let e = r.unwrap_err();
    assert_eq!(e.message(), "execute failed");
    assert_eq!(e.code(), 3);
    assert_eq!(call, EngineCall::DecRef(31));
    assert!(AutomationBatch::new(&ctx, 9, 0, "no context").is_err());
    let batch = AutomationBatch::new(&ctx, 0, 32, "").ok().unwrap();
    assert_eq!(batch.release(), EngineCall::DecRef(32));
}

fn wire() -> BiquadConfig {
    BiquadConfig {
        b0: 1.0f64.to_bits(),
        b1: 0,
        b2: 0,
        a1: 0,
        a2: 0,
        gain: 1.0f64.to_bits(),
        is_wire: true,
    }
}

#[test]
fn route_builder_changes_one_setting_at_a_time() {
    let initial = RouteConfig { gain: 1.0f64.to_bits(), fade_time: 0.03f64.to_bits(), filter: wire() };
    assert_eq!(RouteConfigBuilder::new(initial).build(), initial);
    let lowpass = BiquadConfig { b0: 5, b1: 6, b2: 7, a1: 8, a2: 9, gain: 10, is_wire: false };
    let built = RouteConfigBuilder::new(initial)
        .set_gain(0.5f64.to_bits())
        .set_fade_time(2.0f64.to_bits())
        .set_filter(lowpass)
        .build();
    assert_eq!(
        built,
        RouteConfig { gain: 0.5f64.to_bits(), fade_time: 2.0f64.to_bits(), filter: lowpass }
    );
    let only_filter = RouteConfigBuilder::new(initial).set_filter(lowpass).build();
    assert_eq!(only_filter.gain, initial.gain);
    assert_eq!(only_filter.fade_time, initial.fade_time);
}

#[test]
fn routing_calls_name_their_objects() {
    let ctx = Context::new(0, 1, "").unwrap();
    let source = DirectSource::new(0, 2, "").unwrap();
    let echo = GlobalEcho::new(0, 3, "").unwrap();
    let config = RouteConfig { gain: 4, fade_time: 5, filter: wire() };
    assert_eq!(
        ctx.config_route(&source, &echo, &config),
        RouteCall::Config { context: 1, output: 2, input: 3, config }
    );
    assert_eq!(
        ctx.config_route_simple(&source, &echo, config),
        RouteCall::Config { context: 1, output: 2, input: 3, config }
    );
    assert_eq!(
        ctx.remove_route(&source, &echo, 9),
        RouteCall::Remove { context: 1, output: 2, input: 3, fade_out: 9 }
    );
}

#[test]
fn delete_behavior() {
    let default = DeleteBehaviorConfig::new();
    assert!(!default.get_linger());
    assert_eq!(default.get_linger_timeout(), 0);
    let built = DeleteBehaviorConfigBuilder::new()
        .linger(true)
        .linger_timeout(2.5f64.to_bits())
        .build();
    assert!(built.get_linger());
    assert_eq!(f64::from_bits(built.get_linger_timeout()), 2.5);
    let mut cfg = DeleteBehaviorConfig::new();
    cfg.set_linger(true);
    cfg.set_linger_timeout(7);
    assert!(cfg.get_linger());
    assert_eq!(cfg.get_linger_timeout(), 7);
    let h = Handle::new(6);
    assert_eq!(h.config_delete_behavior(&cfg), DeleteBehaviorCall { target: 6, config: cfg });
    let ctx = Context::new(0, 1, "").unwrap();
    assert_eq!(ctx.config_delete_behavior(&built).target, 1);
    assert_eq!(DeleteBehaviorConfigBuilder::new().build(), DeleteBehaviorConfig::new());
}

#[test]
fn sine_bank_wave_keeps_its_parts() {
    let w = SineBankWave::new(1, 2, 3);
    assert_eq!(w, SineBankWave { frequency_mul: 1, phase: 2, gain: 3 });
}
