use boson::kind::BuiltinKind;
use std::collections::hash_map::DefaultHasher;
use std::hash::{Hash, Hasher};

#[test]
fn size_is_position_of_end_mark() {
    assert_eq!(BuiltinKind::get_size(), 27);
    assert_eq!(BuiltinKind::get_by_index(27), None);
    assert_eq!(BuiltinKind::get_by_index(1000), None);
}

#[test]
fn describe_gives_call_names() {
    assert_eq!(BuiltinKind::Print.desribe(), "print");
    assert_eq!(BuiltinKind::Truthy.desribe(), "is_true");
    assert_eq!(BuiltinKind::Length.desribe(), "len");
    assert_eq!(BuiltinKind::TimeUnix.desribe(), "unix_time");
    assert_eq!(BuiltinKind::HasNext.desribe(), "has_next");
    assert_eq!(BuiltinKind::CreateArray.desribe(), "create_array");
    assert_eq!(BuiltinKind::ExecRaw.desribe(), "exec_raw");
    assert_eq!(BuiltinKind::EndMark.desribe(), "undef");
}

#[test]
fn index_follows_declaration_order() {
    assert_eq!(BuiltinKind::get_by_index(0), Some(BuiltinKind::Print));
    assert_eq!(BuiltinKind::get_by_index(3), Some(BuiltinKind::Length));
    assert_eq!(BuiltinKind::get_by_index(13), Some(BuiltinKind::String));
    assert_eq!(BuiltinKind::get_by_index(26), Some(BuiltinKind::ExecRaw));
}

#[test]
fn names_list_every_position_and_undef() {
    let names = BuiltinKind::get_names();
    assert_eq!(names.len(), 28);
    assert_eq!(names[0], "print");
    assert_eq!(names[27], "undef");
    for i in 0..27 {
        assert_eq!(names[i], BuiltinKind::get_by_index(i).unwrap().desribe());
    }
}

#[test]
fn lookup_by_name_round_trips() {
    for i in 0..27 {
        let kind = BuiltinKind::get_by_index(i).unwrap();
        assert_eq!(BuiltinKind::get_by_name(&kind.desribe()), Some(kind));
    }
}

#[test]
fn lookup_of_unknown_names_fails() {
    assert_eq!(BuiltinKind::get_by_name(&"undef".to_string()), None);
    assert_eq!(BuiltinKind::get_by_name(&"".to_string()), None);
    assert_eq!(BuiltinKind::get_by_name(&"Print".to_string()), None);
    assert_eq!(BuiltinKind::get_by_name(&"exec_ra".to_string()), None);
    assert_eq!(BuiltinKind::get_by_name(&"exec".to_string()), Some(BuiltinKind::Exec));
}

#[test]
fn equal_kinds_hash_equally() {
    let digest = |k: BuiltinKind| {
        let mut h = DefaultHasher::new();
        k.hash(&mut h);
        h.finish()
    };
    let named = |s: &str| {
        let mut h = DefaultHasher::new();
        s.to_string().hash(&mut h);
        h.finish()
    };
    assert_eq!(digest(BuiltinKind::Print), digest(BuiltinKind::Print));
    assert_eq!(digest(BuiltinKind::Print), named("print"));
    assert_ne!(digest(BuiltinKind::Print), digest(BuiltinKind::Println));
}
