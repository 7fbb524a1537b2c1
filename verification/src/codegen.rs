//! Wrapper specifications and the C wrappers generated from them: for
//! each system call, its C signature and a policy that says which
//! arguments are sandbox paths or sized sandbox buffers; each such argument
//! is translated to a host pointer, and checked, before the call.
use vstd::prelude::*;
use vstd::string::StringSliceAdditionalSpecFns;

verus! {

/// The language of a wrapper implementation.
#[derive(PartialEq, Eq, Structural, Clone, Copy, Debug)]
pub enum Language {
    C,
    Cpp,
    Rust,
}

/// The lowercase form of a string, as Rust's `str::to_lowercase` gives it.
pub uninterp spec fn lowercase(s: Seq<char>) -> Seq<char>;

/// The lowercase form of `s`.
#[verifier::external_body]
fn to_lowercase(s: &str) -> (r: String)
    ensures
        r@ == lowercase(s@),
{
    s.to_lowercase()
}

/// Whether two strings are equal.
pub fn str_eq(a: &str, b: &str) -> (r: bool)
    ensures
        r == (a@ == b@),
{
    let ab = a.as_bytes();
    let bb = b.as_bytes();
    proof {
        vstd::utf8::encode_utf8_decode_utf8(a@);
        vstd::utf8::encode_utf8_decode_utf8(b@);
    }
    if ab.len() != bb.len() {
        return false;
    }
    let mut i: usize = 0;
    while i < ab.len()
        invariant
            ab@.len() == bb@.len(),
            ab@ == vstd::utf8::encode_utf8(a@),
            bb@ == vstd::utf8::encode_utf8(b@),
            i <= ab@.len(),
            forall|j: int| 0 <= j < i ==> ab@[j] == bb@[j],
        decreases ab@.len() - i,
    {
        if ab[i] != bb[i] {
            return false;
        }
        i += 1;
    }
    assert(ab@ =~= bb@);
    true
}

/// The language that an already lowercased name names.
pub fn lang_from_lowercase(name: &str) -> (r: Result<Language, ()>)
    ensures
        r == (if name@ == "c"@ {
            Ok(Language::C)
        } else if name@ == "cpp"@ {
            Ok(Language::Cpp)
        } else if name@ == "rust"@ {
            Ok(Language::Rust)
        } else {
            Err(())
        }),
{
    if str_eq(name, "c") {
        Ok(Language::C)
    } else if str_eq(name, "cpp") {
        Ok(Language::Cpp)
    } else if str_eq(name, "rust") {
        Ok(Language::Rust)
    } else {
        Err(())
    }
}

/// The language a name names, whatever its case.
pub fn lang_from_string(input: String) -> (r: Result<Language, ()>)
    ensures
        r == (if lowercase(input@) == "c"@ {
            Ok(Language::C)
        } else if lowercase(input@) == "cpp"@ {
            Ok(Language::Cpp)
        } else if lowercase(input@) == "rust"@ {
            Ok(Language::Rust)
        } else {
            Err(())
        }),
{
    let lower = to_lowercase(input.as_str());
    lang_from_lowercase(lower.as_str())
}

/// The settings of the wrapper generator: the target language, the
/// specification file and the implementation file.
#[derive(Debug)]
pub struct Config {
    pub language: Language,
    pub spec_path: String,
    pub impl_path: String,
}

/// A C type of a wrapper signature.
#[derive(Debug)]
pub enum Ctype {
    Char,
    Int,
    Void,
    SizeT,
    SsizeT,
    OffT,
    ModeT,
    /// A pointer to the type; the flag says whether it is mutable.
    Pointer(Box<Ctype>, bool),
    /// A `struct` of the given name.
    CStruct(String),
}

impl Ctype {
    /// How the type is written.
    pub open spec fn text(self) -> Seq<char>
        decreases self,
    {
        match self {
            Ctype::Char => "char"@,
            Ctype::Int => "int"@,
            Ctype::Void => "void"@,
            Ctype::SizeT => "size_t"@,
            Ctype::SsizeT => "ssize_t"@,
            Ctype::OffT => "off_t"@,
            Ctype::ModeT => "mode_t"@,
            Ctype::Pointer(p, is_mut) => if is_mut {
                "* "@ + p.text()
            } else {
                "const * "@ + p.text()
            },
            Ctype::CStruct(name) => name@,
        }
    }

    /// The base type that a name spells, if it is one.
    pub open spec fn named(s: Seq<char>) -> Option<Ctype> {
        if s == "char"@ {
            Some(Ctype::Char)
        } else if s == "int"@ {
            Some(Ctype::Int)
        } else if s == "void"@ {
            Some(Ctype::Void)
        } else if s == "size_t"@ {
            Some(Ctype::SizeT)
        } else if s == "ssize_t"@ {
            Some(Ctype::SsizeT)
        } else if s == "off_t"@ {
            Some(Ctype::OffT)
        } else if s == "mode_t"@ {
            Some(Ctype::ModeT)
        } else {
            None
        }
    }

    /// The base type that `input` names.
    pub fn from_name(input: &str) -> (r: Result<Ctype, ()>)
        ensures
            match Ctype::named(input@) {
                Some(t) => r == Ok::<Ctype, ()>(t),
                None => r == Err::<Ctype, ()>(()),
            },
    {
        if str_eq(input, "char") {
            Ok(Ctype::Char)
        } else if str_eq(input, "int") {
            Ok(Ctype::Int)
        } else if str_eq(input, "void") {
            Ok(Ctype::Void)
        } else if str_eq(input, "size_t") {
            Ok(Ctype::SizeT)
        } else if str_eq(input, "ssize_t") {
            Ok(Ctype::SsizeT)
        } else if str_eq(input, "off_t") {
            Ok(Ctype::OffT)
        } else if str_eq(input, "mode_t") {
            Ok(Ctype::ModeT)
        } else {
            Err(())
        }
    }

    /// How the type is written.
    pub fn to_string(&self) -> (r: String)
        ensures
            r@ == self.text(),
        decreases self,
    {
        match self {
            Ctype::Char => String::from_str("char"),
            Ctype::Int => String::from_str("int"),
            Ctype::Void => String::from_str("void"),
            Ctype::SizeT => String::from_str("size_t"),
            Ctype::SsizeT => String::from_str("ssize_t"),
            Ctype::OffT => String::from_str("off_t"),
            Ctype::ModeT => String::from_str("mode_t"),
            Ctype::Pointer(ptr, is_mut) => {
                let inner = (**ptr).to_string();
                let mut out = if *is_mut {
                    String::from_str("* ")
                } else {
                    String::from_str("const * ")
                };
                out.append(inner.as_str());
                out
            },
            Ctype::CStruct(name) => name.clone(),
        }
    }
}

/// An annotation of a policy: a name, with one argument or none.
#[derive(Debug)]
pub enum TypeQualifier {
    Qualifier0Arg(String),
    Qualifier1Arg(String, String),
}

/// The C signature of a wrapper.
#[derive(Debug)]
pub struct WrapperSignature {
    pub function_name: String,
    pub ret_ty: Ctype,
    pub args: Vec<(Ctype, String)>,
}

/// The contents of the strings.
pub open spec fn string_texts(v: Seq<String>) -> Seq<Seq<char>> {
    v.map_values(|s: String| s@)
}

/// The parts joined by `sep`.
pub open spec fn join_text(parts: Seq<Seq<char>>, sep: Seq<char>) -> Seq<char>
    decreases parts.len(),
{
    if parts.len() == 0 {
        Seq::empty()
    } else if parts.len() == 1 {
        parts[0]
    } else {
        join_text(parts.drop_last(), sep) + sep + parts.last()
    }
}

/// The strings joined by `sep`.
pub fn join_strings(parts: &Vec<String>, sep: &str) -> (r: String)
    ensures
        r@ == join_text(string_texts(parts@), sep@),
{
    let ghost texts = string_texts(parts@);
    let mut out = String::new();
    let mut i: usize = 0;
    while i < parts.len()
        invariant
            i <= parts@.len(),
            texts == string_texts(parts@),
            out@ == join_text(texts.take(i as int), sep@),
        decreases parts@.len() - i,
    {
        if i > 0 {
            out.append(sep);
        }
        out.append(parts[i].as_str());
        proof {
            assert(texts.take(i + 1).drop_last() =~= texts.take(i as int));
            if i == 0 {
                assert(texts.take(1) =~= seq![texts[0]]);
            }
        }
        i += 1;
    }
    assert(texts.take(parts@.len() as int) =~= texts);
    out
}

impl WrapperSignature {
    /// How an argument is written.
    pub open spec fn arg_text(a: (Ctype, String)) -> Seq<char> {
        a.0.text() + " "@ + a.1@
    }

    /// How the signature is written: `ret name (type arg, ...)`.
    pub open spec fn text(self) -> Seq<char> {
        self.ret_ty.text() + " "@ + self.function_name@ + " ("@ + join_text(
            self.args@.map_values(|a: (Ctype, String)| WrapperSignature::arg_text(a)),
            ", "@,
        ) + ")"@
    }

    /// How the signature is written.
    pub fn to_string(&self) -> (r: String)
        ensures
            r@ == self.text(),
    {
        let mut arg_strs: Vec<String> = Vec::new();
        let mut i: usize = 0;
        while i < self.args.len()
            invariant
                i <= self.args@.len(),
                arg_strs@.len() == i,
                forall|j: int| 0 <= j < i ==> #[trigger] arg_strs@[j]@ == WrapperSignature::arg_text(self.args@[j]),
            decreases self.args@.len() - i,
        {
            let mut s = self.args[i].0.to_string();
            s.append(" ");
            s.append(self.args[i].1.as_str());
            arg_strs.push(s);
            i += 1;
        }
        let args_str = join_strings(&arg_strs, ", ");
        assert(string_texts(arg_strs@) =~= self.args@.map_values(
            |a: (Ctype, String)| WrapperSignature::arg_text(a),
        ));
        let mut out = self.ret_ty.to_string();
        out.append(" ");
        out.append(self.function_name.as_str());
        out.append(" (");
        out.append(args_str.as_str());
        out.append(")");
        out
    }
}

/// The annotations of the arguments of one wrapper.
#[derive(Debug)]
pub struct WrapperPolicy {
    pub function_name: String,
    pub annotations: Vec<(String, TypeQualifier)>,
}

/// The signatures and policies of a wrapper specification, each kept at
/// most once per function name (a later entry for a name replaces the
/// earlier one), in the order the names were first met. They are lists
/// rather than maps keyed by name: a map keyed by a `String` gives no
/// contract on what a lookup returns, and a hash map's order of walking
/// would make the generated text arbitrary.
#[derive(Debug)]
pub struct Spec {
    pub sigs: Vec<WrapperSignature>,
    pub policies: Vec<WrapperPolicy>,
}

/// The system call at the end of a wrapper, on the sanitized arguments.
pub open spec fn syscall_text(name: Seq<char>, args: Seq<Seq<char>>) -> Seq<char> {
    "\n    return syscall(SYS_"@ + name + ", \n        "@ + join_text(args, ",\n\t"@) + " \n        NULL);\n    "@
}

/// The check of a path argument, and the name of the translated pointer.
pub open spec fn path_sanitizer_text(input: Seq<char>) -> (Seq<char>, Seq<char>) {
    (
        "\n    hostptr host_"@ + input + " = path_from_sandbox("@ + input + ");\n    if (host_"@ + input
            + " == NULL)\n        return -1;"@,
        "host_"@ + input,
    )
}

/// The check of a buffer argument whose size is the argument `arg`, and the
/// name of the translated pointer.
pub open spec fn sized_buf_sanitizer_text(input: Seq<char>, arg: Seq<char>) -> (Seq<char>, Seq<char>) {
    (
        "\n    hostptr host_"@ + input + " = sized_buf_from_sandbox("@ + input + ", "@ + arg
            + ");\n    if (host_"@ + input + " == NULL)\n        return -1;"@,
        "host_"@ + input,
    )
}

/// Whether the annotation is one the generator knows: `PathType`, or
/// `SizedBuf` with the name of the size argument.
pub open spec fn known_qualifier(q: TypeQualifier) -> bool {
    match q {
        TypeQualifier::Qualifier0Arg(name) => name@ == "PathType"@,
        TypeQualifier::Qualifier1Arg(name, _) => name@ == "SizedBuf"@,
    }
}

/// The check for an argument of a known annotation.
pub open spec fn sanitizer_text(input: Seq<char>, q: TypeQualifier) -> (Seq<char>, Seq<char>) {
    match q {
        TypeQualifier::Qualifier0Arg(_) => path_sanitizer_text(input),
        TypeQualifier::Qualifier1Arg(_, arg) => sized_buf_sanitizer_text(input, arg@),
    }
}

/// The checks of all annotated arguments, in order.
pub open spec fn sanitizers_text(anns: Seq<(String, TypeQualifier)>) -> Seq<char>
    decreases anns.len(),
{
    if anns.len() == 0 {
        Seq::empty()
    } else {
        sanitizers_text(anns.drop_last()) + sanitizer_text(anns.last().0@, anns.last().1).0
    }
}

/// The translated pointers of all annotated arguments, in order.
pub open spec fn sanitized_args(anns: Seq<(String, TypeQualifier)>) -> Seq<Seq<char>> {
    anns.map_values(|a: (String, TypeQualifier)| sanitizer_text(a.0@, a.1).1)
}

/// Whether every annotation of the policy is known.
pub open spec fn policy_known(policy: WrapperPolicy) -> bool {
    forall|i: int| 0 <= i < policy.annotations@.len() ==> known_qualifier(#[trigger] policy.annotations@[i].1)
}

/// The wrapper for a signature under its policy.
pub open spec fn c_wrapper_text(sig: WrapperSignature, policy: WrapperPolicy) -> Seq<char> {
    sig.text() + " {\n                "@ + sanitizers_text(policy.annotations@) + "\n                "@
        + syscall_text(sig.function_name@, sanitized_args(policy.annotations@)) + "\n    }\n"@
}

/// The position of the last policy for `name`, or -1.
pub open spec fn policy_index(policies: Seq<WrapperPolicy>, name: Seq<char>) -> int
    decreases policies.len(),
{
    if policies.len() == 0 {
        -1
    } else if policies.last().function_name@ == name {
        policies.len() - 1
    } else {
        policy_index(policies.drop_last(), name)
    }
}

/// The position of the last policy for a name lies among the policies
/// and names it.
pub proof fn lemma_policy_index(policies: Seq<WrapperPolicy>, name: Seq<char>)
    ensures
        -1 <= policy_index(policies, name) < policies.len(),
        policy_index(policies, name) >= 0 ==> policies[policy_index(policies, name)].function_name@ == name,
    decreases policies.len(),
{
    if policies.len() > 0 && policies.last().function_name@ != name {
        lemma_policy_index(policies.drop_last(), name);
    }
}

/// The wrappers for the signatures, in order, each under its policy.
pub open spec fn c_wrappers_text(sigs: Seq<WrapperSignature>, policies: Seq<WrapperPolicy>) -> Seq<char>
    decreases sigs.len(),
{
    if sigs.len() == 0 {
        Seq::empty()
    } else {
        c_wrappers_text(sigs.drop_last(), policies) + c_wrapper_text(
            sigs.last(),
            policies[policy_index(policies, sigs.last().function_name@)],
        )
    }
}

impl Spec {
    /// Every signature has a policy, and every annotation of the policy it
    /// looks up is known; policies no signature looks up are not consulted.
    pub open spec fn complete(&self) -> bool {
        forall|i: int|
            0 <= i < self.sigs@.len() ==> {
                let k = policy_index(self.policies@, #[trigger] self.sigs@[i].function_name@);
                k >= 0 && policy_known(self.policies@[k])
            }
    }
}

/// The system call of the wrapper for `sig`, on the translated arguments.
pub fn gen_syscall(sig: &WrapperSignature, args: Vec<String>) -> (r: String)
    ensures
        r@ == syscall_text(sig.function_name@, string_texts(args@)),
{
    let joined = join_strings(&args, ",\n\t");
    let mut out = String::from_str("\n    return syscall(SYS_");
    out.append(sig.function_name.as_str());
    out.append(", \n        ");
    out.append(joined.as_str());
    out.append(" \n        NULL);\n    ");
    out
}

/// The check of a path argument: its translation must not be null.
pub fn gen_path_sanitizer(input: String) -> (r: (String, String))
    ensures
        (r.0@, r.1@) == path_sanitizer_text(input@),
{
    let mut check = String::from_str("\n    hostptr host_");
    check.append(input.as_str());
    check.append(" = path_from_sandbox(");
    check.append(input.as_str());
    check.append(");\n    if (host_");
    check.append(input.as_str());
    check.append(" == NULL)\n        return -1;");
    let mut name = String::from_str("host_");
    name.append(input.as_str());
    (check, name)
}

/// The check of a buffer argument of `arg` bytes: its translation must not
/// be null.
pub fn gen_sized_buf_sanitizer(input: String, arg: String) -> (r: (String, String))
    ensures
        (r.0@, r.1@) == sized_buf_sanitizer_text(input@, arg@),
{
    let mut check = String::from_str("\n    hostptr host_");
    check.append(input.as_str());
    check.append(" = sized_buf_from_sandbox(");
    check.append(input.as_str());
    check.append(", ");
    check.append(arg.as_str());
    check.append(");\n    if (host_");
    check.append(input.as_str());
    check.append(" == NULL)\n        return -1;");
    let mut name = String::from_str("host_");
    name.append(input.as_str());
    (check, name)
}

/// The check for an argument of a known annotation.
pub fn gen_sanitizer(input: String, rule: &TypeQualifier) -> (r: (String, String))
    requires
        known_qualifier(*rule),
    ensures
        (r.0@, r.1@) == sanitizer_text(input@, *rule),
{
    match rule {
        TypeQualifier::Qualifier0Arg(name) => {
            if str_eq(name.as_str(), "PathType") {
                return gen_path_sanitizer(input);
            }
            proof {
                assert(false);
            }
            (String::new(), String::new())
        },
        TypeQualifier::Qualifier1Arg(name, arg) => {
            if str_eq(name.as_str(), "SizedBuf") {
                return gen_sized_buf_sanitizer(input, arg.clone());
            }
            proof {
                assert(false);
            }
            (String::new(), String::new())
        },
    }
}

/// The checks of all annotated arguments of a policy, and their
/// translated names.
pub fn gen_sanitizers(policy: &WrapperPolicy) -> (r: (String, Vec<String>))
    requires
        policy_known(*policy),
    ensures
        r.0@ == sanitizers_text(policy.annotations@),
        string_texts(r.1@) == sanitized_args(policy.annotations@),
{
    let mut sanitizers_str = String::new();
    let mut sanitized: Vec<String> = Vec::new();
    let mut i: usize = 0;
    while i < policy.annotations.len()
        invariant
            policy_known(*policy),
            i <= policy.annotations@.len(),
            sanitized@.len() == i,
            sanitizers_str@ == sanitizers_text(policy.annotations@.take(i as int)),
            string_texts(sanitized@) == sanitized_args(policy.annotations@.take(i as int)),
        decreases policy.annotations@.len() - i,
    {
        let input = policy.annotations[i].0.clone();
        let (sanitizer_str, sanitized_arg) = gen_sanitizer(input, &policy.annotations[i].1);
        let ghost before = sanitized@;
        sanitizers_str.append(sanitizer_str.as_str());
        sanitized.push(sanitized_arg);
        proof {
            let anns = policy.annotations@;
            assert(anns.take(i + 1).drop_last() =~= anns.take(i as int));
            assert forall|j: int| 0 <= j < i + 1 implies #[trigger] string_texts(sanitized@)[j]
                == sanitized_args(anns.take(i + 1))[j] by {
                if j < i {
                    assert(sanitized@[j] == before[j]);
                    assert(string_texts(before)[j] == sanitized_args(anns.take(i as int))[j]);
                }
            }
            assert(string_texts(sanitized@) =~= sanitized_args(anns.take(i + 1)));
        }
        i += 1;
    }
    assert(policy.annotations@.take(policy.annotations@.len() as int) =~= policy.annotations@);
    (sanitizers_str, sanitized)
}

/// The wrapper for `sig` under `policy`: the signature, the checks of the
/// annotated arguments, and the system call on the translated ones.
pub fn gen_c_wrapper(sig: &WrapperSignature, policy: &WrapperPolicy) -> (r: String)
    requires
        policy_known(*policy),
    ensures
        r@ == c_wrapper_text(*sig, *policy),
{
    let sig_str = sig.to_string();
    let (sanitizers_str, sanitized_args) = gen_sanitizers(policy);
    let syscall_str = gen_syscall(sig, sanitized_args);
    let mut out = sig_str;
    out.append(" {\n                ");
    out.append(sanitizers_str.as_str());
    out.append("\n                ");
    out.append(syscall_str.as_str());
    out.append("\n    }\n");
    out
}

/// The position of the last policy for `name`, if any.
pub fn find_policy(policies: &Vec<WrapperPolicy>, name: &String) -> (r: Option<usize>)
    ensures
        match r {
            Some(i) => i as int == policy_index(policies@, name@),
            None => policy_index(policies@, name@) == -1,
        },
{
    let mut i: usize = policies.len();
    assert(policies@.take(i as int) =~= policies@);
    while i > 0
        invariant
            i <= policies@.len(),
            policy_index(policies@, name@) == policy_index(policies@.take(i as int), name@),
        decreases i,
    {
        proof {
            assert(policies@.take(i as int).drop_last() =~= policies@.take(i - 1));
        }
        if policies[i - 1].function_name == *name {
            return Some(i - 1);
        }
        i -= 1;
    }
    None
}

/// The wrappers for every signature of the specification, in order.
pub fn gen_c_wrappers(spec: &Spec) -> (r: String)
    requires
        spec.complete(),
    ensures
        r@ == c_wrappers_text(spec.sigs@, spec.policies@),
{
    let mut wrappers_str = String::new();
    let mut i: usize = 0;
    while i < spec.sigs.len()
        invariant
            spec.complete(),
            i <= spec.sigs@.len(),
            wrappers_str@ == c_wrappers_text(spec.sigs@.take(i as int), spec.policies@),
        decreases spec.sigs@.len() - i,
    {
        let sig = &spec.sigs[i];
        let k = find_policy(&spec.policies, &sig.function_name);
        assert(policy_index(spec.policies@, spec.sigs@[i as int].function_name@) >= 0);
        proof {
            lemma_policy_index(spec.policies@, spec.sigs@[i as int].function_name@);
        }
        let k = match k {
            Some(k) => k,
            None => {
                proof {
                    assert(false);
                }
                0
            },
        };
        let policy = &spec.policies[k];
        assert(policy_known(spec.policies@[k as int]));
        let wrapper = gen_c_wrapper(sig, policy);
        proof {
            assert(spec.sigs@.take(i + 1).drop_last() =~= spec.sigs@.take(i as int));
        }
        wrappers_str.append(wrapper.as_str());
        i += 1;
    }
    assert(spec.sigs@.take(spec.sigs@.len() as int) =~= spec.sigs@);
    wrappers_str
}

} // verus!
