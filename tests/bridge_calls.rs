use sandyloader::bridge::{
    arguments_fit, parse_signature, BridgeError, BridgeValue, CallOutcome, JavaType,
    ObjectRef, ReferenceTable,
};

#[test]
fn parses_descriptors() {
    let m = parse_signature("(ILjava/lang/String;[J)V").unwrap();
    assert_eq!(m.params, vec![JavaType::Int, JavaType::Object, JavaType::Array]);
    assert_eq!(m.ret, None);
    let m = parse_signature("()Z").unwrap();
    assert!(m.params.is_empty());
    assert_eq!(m.ret, Some(JavaType::Boolean));
    let m = parse_signature("([[DCBSF)[Ljava/lang/Object;").unwrap();
    assert_eq!(
        m.params,
        vec![JavaType::Array, JavaType::Char, JavaType::Byte, JavaType::Short, JavaType::Float]
    );
    assert_eq!(m.ret, Some(JavaType::Array));
}

#[test]
fn rejects_malformed_descriptors() {
    for bad in ["", "I", "(I", "(I)", "(V)V", "(L;)V", "(Ljava/lang/String)V", "(I)VV", "(Q)V", "()[", "(I)V "] {
        assert!(
            matches!(parse_signature(bad), Err(BridgeError::SignatureMismatch)),
            "{}",
            bad
        );
    }
}

#[test]
fn argument_types_must_match() {
    let params = vec![JavaType::Int, JavaType::Object];
    assert!(arguments_fit(&params, &vec![BridgeValue::Int(1), BridgeValue::Str("s".to_string())]));
    assert!(arguments_fit(&params, &vec![BridgeValue::Int(1), BridgeValue::Null]));
    assert!(!arguments_fit(&params, &vec![BridgeValue::Long(1), BridgeValue::Null]));
    assert!(!arguments_fit(&params, &vec![BridgeValue::Int(1)]));
}

#[test]
fn invoke_with_extra_argument_is_signature_mismatch() {
    let mut refs = ReferenceTable::new();
    refs.push_scope();
    let target = refs.new_local().unwrap();
    let before = refs.open_scopes();
    let r = refs.begin_invoke(target, "(I)V", &vec![BridgeValue::Int(1), BridgeValue::Int(2)]);
    assert!(matches!(r, Err(BridgeError::SignatureMismatch)));
    assert_eq!(refs.open_scopes(), before);
    assert!(refs.is_live(target));
}

#[test]
fn invoke_round_trip_releases_call_scope() {
    let mut refs = ReferenceTable::new();
    refs.push_scope();
    let target = refs.new_local().unwrap();
    let m = refs.begin_invoke(target, "(I)I", &vec![BridgeValue::Int(7)]).unwrap();
    assert_eq!(refs.open_scopes(), 2);
    let inner = refs.new_local().unwrap();
    assert!(refs.is_live(inner));
    let r = refs.finish_invoke(&m, CallOutcome::Returned(BridgeValue::Int(49)));
    assert!(matches!(r, Ok(BridgeValue::Int(49))));
    assert_eq!(refs.open_scopes(), 1);
    assert!(!refs.is_live(inner));
    assert!(refs.is_live(target));
}

#[test]
fn outcomes_map_to_errors() {
    let mut refs = ReferenceTable::new();
    refs.push_scope();
    let t = refs.new_local().unwrap();
    let m = refs.begin_invoke(t, "()V", &vec![]).unwrap();
    match refs.finish_invoke(&m, CallOutcome::Exception("java.lang.IllegalStateException".to_string())) {
        Err(BridgeError::PendingRuntimeException(d)) => assert_eq!(d, "java.lang.IllegalStateException"),
        other => panic!("unexpected {:?}", other),
    }
    let m = refs.begin_invoke(t, "()V", &vec![]).unwrap();
    assert!(matches!(refs.finish_invoke(&m, CallOutcome::Panicked("boom".to_string())), Err(BridgeError::Internal(_))));
    let m = refs.begin_invoke(t, "()V", &vec![]).unwrap();
    assert!(matches!(refs.finish_invoke(&m, CallOutcome::Failed("jni".to_string())), Err(BridgeError::JniError(_))));
    let m = refs.begin_invoke(t, "()V", &vec![]).unwrap();
    assert!(matches!(refs.finish_invoke(&m, CallOutcome::Returned(BridgeValue::Int(1))), Err(BridgeError::ConversionError(_))));
    let m = refs.begin_invoke(t, "()J", &vec![]).unwrap();
    assert!(matches!(refs.finish_invoke(&m, CallOutcome::Returned(BridgeValue::Int(1))), Err(BridgeError::ConversionError(_))));
    assert_eq!(refs.open_scopes(), 1);
}

#[test]
fn expired_references_are_refused() {
    let mut refs = ReferenceTable::new();
    assert!(refs.new_local().is_none());
    refs.push_scope();
    let a = refs.new_local().unwrap();
    let b = refs.new_local().unwrap();
    assert_ne!(a, b);
    let g = refs.promote(b).unwrap();
    assert_eq!(refs.pop_scope(), 2);
    assert!(!refs.is_live(a));
    assert!(refs.is_live(g));
    assert!(matches!(refs.promote(a), Err(BridgeError::ReferenceExpired)));
    assert!(matches!(
        refs.begin_invoke(a, "()V", &vec![]),
        Err(BridgeError::ReferenceExpired)
    ));
    assert!(matches!(
        refs.begin_invoke(g, "(Ljava/lang/Object;)V", &vec![BridgeValue::Object(a)]),
        Err(BridgeError::ReferenceExpired)
    ));
    assert!(refs.release_global(g).is_ok());
    assert!(!refs.is_live(g));
    assert!(matches!(refs.release_global(g), Err(BridgeError::ReferenceExpired)));
    assert!(matches!(refs.release_global(ObjectRef { id: 999 }), Err(BridgeError::ReferenceExpired)));
}
