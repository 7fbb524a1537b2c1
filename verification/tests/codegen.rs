use wave::codegen::{
    find_policy, gen_c_wrapper, gen_c_wrappers, gen_path_sanitizer, gen_sanitizer, gen_syscall, lang_from_string,
    Ctype, Language, Spec, TypeQualifier, WrapperPolicy, WrapperSignature,
};

fn read_sig() -> WrapperSignature {
    WrapperSignature {
        function_name: String::from("read"),
        ret_ty: Ctype::SsizeT,
        args: vec![
            (Ctype::Int, String::from("fd")),
            (Ctype::Pointer(Box::new(Ctype::Void), true), String::from("buf")),
            (Ctype::SizeT, String::from("count")),
        ],
    }
}

fn read_policy() -> WrapperPolicy {
    WrapperPolicy {
        function_name: String::from("read"),
        annotations: vec![(
            String::from("buf"),
            TypeQualifier::Qualifier1Arg(String::from("SizedBuf"), String::from("count")),
        )],
    }
}

#[test]
fn ctype_names() {
    assert_eq!(Ctype::Char.to_string(), "char");
    assert_eq!(Ctype::Pointer(Box::new(Ctype::Char), false).to_string(), "const * char");
    assert_eq!(Ctype::Pointer(Box::new(Ctype::ModeT), true).to_string(), "* mode_t");
    assert_eq!(Ctype::CStruct(String::from("stat")).to_string(), "stat");
    assert!(matches!(Ctype::from_name("size_t"), Ok(Ctype::SizeT)));
    assert!(matches!(Ctype::from_name("off_t"), Ok(Ctype::OffT)));
    assert!(Ctype::from_name("long").is_err());
}

#[test]
fn signature_text() {
    assert_eq!(read_sig().to_string(), "ssize_t read (int fd, * void buf, size_t count)");
    let none = WrapperSignature { function_name: String::from("sync"), ret_ty: Ctype::Void, args: Vec::new() };
    assert_eq!(none.to_string(), "void sync ()");
}

#[test]
fn languages() {
    assert_eq!(lang_from_string(String::from("RUST")), Ok(Language::Rust));
    assert_eq!(lang_from_string(String::from("Cpp")), Ok(Language::Cpp));
    assert_eq!(lang_from_string(String::from("c")), Ok(Language::C));
    assert_eq!(lang_from_string(String::from("java")), Err(()));
}

#[test]
fn sanitizers() {
    let (check, name) = gen_path_sanitizer(String::from("p"));
    assert_eq!(name, "host_p");
    assert_eq!(check, "\n    hostptr host_p = path_from_sandbox(p);\n    if (host_p == NULL)\n        return -1;");
    let (check, name) = gen_sanitizer(String::from("buf"), &TypeQualifier::Qualifier1Arg(String::from("SizedBuf"), String::from("n")));
    assert_eq!(name, "host_buf");
    assert_eq!(check, "\n    hostptr host_buf = sized_buf_from_sandbox(buf, n);\n    if (host_buf == NULL)\n        return -1;");
}

#[test]
fn syscall_text() {
    let s = gen_syscall(&read_sig(), vec![String::from("a"), String::from("b")]);
    assert_eq!(s, "\n    return syscall(SYS_read, \n        a,\n\tb \n        NULL);\n    ");
}

#[test]
fn whole_wrapper() {
    let spec = Spec { sigs: vec![read_sig()], policies: vec![read_policy()] };
    let out = gen_c_wrappers(&spec);
    let expected = format!(
        "{} {{\n                {}\n                {}\n    }}\n",
        "ssize_t read (int fd, * void buf, size_t count)",
        "\n    hostptr host_buf = sized_buf_from_sandbox(buf, count);\n    if (host_buf == NULL)\n        return -1;",
        "\n    return syscall(SYS_read, \n        host_buf \n        NULL);\n    "
    );
    assert_eq!(out, expected);
    assert_eq!(gen_c_wrapper(&read_sig(), &read_policy()), expected);
}

#[test]
fn policies_are_found_by_name() {
    let policies = vec![read_policy()];
    assert_eq!(find_policy(&policies, &String::from("read")), Some(0));
    assert_eq!(find_policy(&policies, &String::from("write")), None);
}

#[test]
fn unused_policies_are_not_consulted() {
    let odd = WrapperPolicy {
        function_name: String::from("ioctl"),
        annotations: vec![(String::from("arg"), TypeQualifier::Qualifier0Arg(String::from("Mystery")))],
    };
    let spec = Spec { sigs: vec![read_sig()], policies: vec![odd, read_policy()] };
    let only = Spec { sigs: vec![read_sig()], policies: vec![read_policy()] };
    assert_eq!(gen_c_wrappers(&spec), gen_c_wrappers(&only));
}
