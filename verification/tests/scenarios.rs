use jvm_init_args::{InitArgsBuilder, JNIVersion, JvmError};

#[test]
fn check_jni_with_a_reserved_name_builds_one_option() {
    let result = InitArgsBuilder::new()
        .option("-Xcheck:jni")
        .option("vfprintf")
        .version(JNIVersion::V8)
        .ignore_unrecognized(true)
        .build();
    let args = result.unwrap();
    assert_eq!(args.option_count(), 1);
    assert!(args.ignore_unrecognized());
    assert_eq!(args.version(), 0x0001_0008);
    let option = args.option(0).unwrap();
    assert_eq!(std::str::from_utf8(option.as_bytes()).unwrap(), "-Xcheck:jni");
    assert_eq!(option.as_bytes_with_nul(), b"-Xcheck:jni\0");
}

#[test]
fn option_with_a_nul_fails_the_build() {
    let result = InitArgsBuilder::new().option("bad\0opt").build();
    match result {
        Err(JvmError::NullOptString(text)) => assert_eq!(text, "bad\0opt"),
        Ok(_) => panic!("a record was built from an option with a NUL inside"),
    }
}

#[test]
fn record_can_be_dropped_at_any_size() {
    let empty = InitArgsBuilder::new().build().unwrap();
    drop(empty);
    let mut builder = InitArgsBuilder::new();
    for i in 0..1000usize {
        builder = builder.option(&format!("-Dkey{}=value", i));
    }
    let large = builder.build().unwrap();
    assert_eq!(large.option_count(), 1000);
    assert_eq!(large.option(999).unwrap().as_bytes(), b"-Dkey999=value");
    drop(large);
}
