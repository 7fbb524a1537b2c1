use wave::codegen::{gen_c_wrappers, Ctype, TypeQualifier};
use wave::parser::{parse_wrapper_policy, parse_wrapper_sig, split_lines, try_parse_spec};

#[test]
fn signature_with_pointer_argument() {
    let g = parse_wrapper_sig("ssize_t read(int fd, void * buf, size_t count)").unwrap();
    assert_eq!(g.function_name, "read");
    assert!(matches!(g.ret_ty, Ctype::SsizeT));
    assert_eq!(g.args.len(), 3);
    assert!(matches!(g.args[0].0, Ctype::Int));
    assert_eq!(g.args[0].1, "fd");
    assert!(matches!(&g.args[1].0, Ctype::Pointer(inner, true) if matches!(**inner, Ctype::Void)));
    assert_eq!(g.args[1].1, "buf");
    assert!(matches!(g.args[2].0, Ctype::SizeT));
    assert_eq!(g.to_string(), "ssize_t read (int fd, * void buf, size_t count)");
}

#[test]
fn const_and_struct_types() {
    let g = parse_wrapper_sig("  int fstatat(const char * path, struct stat * st)").unwrap();
    assert!(matches!(&g.args[0].0, Ctype::Pointer(inner, false) if matches!(**inner, Ctype::Char)));
    assert!(matches!(&g.args[1].0, Ctype::Pointer(inner, true) if matches!(&**inner, Ctype::CStruct(n) if n == "stat")));
}

#[test]
fn signatures_that_do_not_parse() {
    assert!(parse_wrapper_sig("void sync()").is_none());
    assert!(parse_wrapper_sig("long f(int x)").is_none());
    assert!(parse_wrapper_sig("int f(char ** argv)").is_none());
    assert!(parse_wrapper_sig("int (x)").is_none());
}

#[test]
fn policy_with_sized_buffer() {
    let p = parse_wrapper_policy("Policy(read) = { buf = SizedBuf(count) }").unwrap();
    assert_eq!(p.function_name, "read");
    assert_eq!(p.annotations.len(), 1);
    assert_eq!(p.annotations[0].0, "buf");
    assert!(matches!(&p.annotations[0].1, TypeQualifier::Qualifier1Arg(n, a) if n == "SizedBuf" && a == "count"));
}

#[test]
fn policy_with_plain_annotations() {
    let p = parse_wrapper_policy("Policy(open) = { path = PathType, mode = Mode }").unwrap();
    assert_eq!(p.function_name, "open");
    assert_eq!(p.annotations.len(), 2);
    assert!(matches!(&p.annotations[0].1, TypeQualifier::Qualifier0Arg(n) if n == "PathType"));
    assert_eq!(p.annotations[1].0, "mode");
    assert!(parse_wrapper_policy("Policy(open) { }").is_none());
    assert!(parse_wrapper_policy("Polic(open) = { a = B }").is_none());
}

#[test]
fn lines_are_split_at_newlines() {
    assert_eq!(split_lines("a\n\nb\n"), vec![String::from("a"), String::from(""), String::from("b"), String::from("")]);
    assert_eq!(split_lines(""), vec![String::from("")]);
}

#[test]
fn whole_specification() {
    let text = "ssize_t read(int fd, void * buf, size_t count)\n\nPolicy(read) = { buf = SizedBuf(count) }\nint close(int fd)\nint close(int fd, int x)\n";
    let spec = try_parse_spec(text).unwrap();
    assert_eq!(spec.sigs.len(), 2);
    assert_eq!(spec.sigs[1].function_name, "close");
    assert_eq!(spec.sigs[1].args.len(), 2);
    assert_eq!(spec.policies.len(), 1);
    assert!(try_parse_spec("int f(\n").is_none());
}

#[test]
fn parsed_specification_generates_wrappers() {
    let spec = try_parse_spec("int unlink(const char * path)\nPolicy(unlink) = { path = PathType }").unwrap();
    let out = gen_c_wrappers(&spec);
    assert_eq!(
        out,
        "int unlink (const * char path) {\n                \n    hostptr host_path = path_from_sandbox(path);\n    if (host_path == NULL)\n        return -1;\n                \n    return syscall(SYS_unlink, \n        host_path \n        NULL);\n    \n    }\n"
    );
}
