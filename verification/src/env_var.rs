//! Names and values of the compile-time environment bindings that a build
//! script hands to the compiler.

use vstd::prelude::*;
use vstd::string::StringExecFns;
use crate::text::chars_of;
use crate::text::escape_newlines;
use crate::text::escaped;
use crate::text::has_prefix;
use crate::text::lemma_escaped_is_single_line;
use crate::text::starts_with;

verus! {

/// `c` is a letter of the ASCII alphabet, upper or lower case.
pub open spec fn is_ascii_letter(c: char) -> bool {
    ('A' <= c <= 'Z') || ('a' <= c <= 'z')
}

/// `c` may stand after the first character of a name: an upper-case ASCII
/// letter, a digit or an underscore.
pub open spec fn is_name_char(c: char) -> bool {
    ('A' <= c <= 'Z') || ('0' <= c <= '9') || c == '_'
}

/// `name` is well formed: it is not empty, it starts with an ASCII letter,
/// and only upper-case ASCII letters, digits and underscores follow.
pub open spec fn valid_env_var_name(name: Seq<char>) -> bool {
    &&& name.len() > 0
    &&& is_ascii_letter(name[0])
    &&& forall|i: int| 1 <= i < name.len() ==> is_name_char(#[trigger] name[i])
}

/// The prefix of the names that Cargo keeps for itself.
pub open spec fn reserved_prefix() -> Seq<char> {
    seq!['C', 'A', 'R', 'G', 'O', '_']
}

/// `name` begins with the reserved prefix.
pub open spec fn is_reserved_name(name: Seq<char>) -> bool {
    has_prefix(name, reserved_prefix())
}

/// `name` can be bound: it is well formed and not reserved.
pub open spec fn accepted_name(name: Seq<char>) -> bool {
    valid_env_var_name(name) && !is_reserved_name(name)
}

/// The line that tells Cargo to bind `name` to `value` for the compiler:
/// the value stands in its escaped, single-line form.
pub open spec fn env_directive(name: Seq<char>, value: Seq<char>) -> Seq<char> {
    "cargo:rustc-env="@ + name + "="@ + escaped(value)
}

/// What the message about an ill-formed name says.
pub open spec fn invalid_name_message(name: Seq<char>) -> Seq<char> {
    "Invalid Cargo environment variable name: '"@ + name + "'"@
}

/// What the message about a reserved name says.
pub open spec fn reserved_name_message(name: Seq<char>) -> Seq<char> {
    "Environment variable name '"@ + name + "' is reserved (cannot start with 'CARGO_')"@
}

/// Why a name cannot be bound.
#[derive(Debug, PartialEq, Eq)]
pub enum BindingError {
    /// The name is empty, starts with something other than an ASCII letter,
    /// or holds a character that a name may not hold.
    InvalidName { name: String },
    /// The name is well formed but begins with the reserved prefix.
    ReservedName { name: String },
}

impl BindingError {
    /// The name that was refused.
    pub open spec fn name_view(self) -> Seq<char> {
        match self {
            BindingError::InvalidName { name } => name@,
            BindingError::ReservedName { name } => name@,
        }
    }

    /// The error that refusing `name` gives; `name` is taken not to be
    /// acceptable.
    pub open spec fn refusing(self, name: Seq<char>) -> bool {
        &&& self.name_view() == name
        &&& self is InvalidName <==> !valid_env_var_name(name)
        &&& self is ReservedName <==> valid_env_var_name(name)
    }

    /// What the error's message says.
    pub open spec fn message_view(self) -> Seq<char> {
        match self {
            BindingError::InvalidName { name } => invalid_name_message(name@),
            BindingError::ReservedName { name } => reserved_name_message(name@),
        }
    }

    /// A message for the build log, naming the offending identifier.
    pub fn message(&self) -> (r: String)
        ensures
            r@ == self.message_view(),
    {
        match self {
            BindingError::InvalidName { name } => {
                let mut out = String::new();
                out.append("Invalid Cargo environment variable name: '");
                out.append(name.as_str());
                out.append("'");
                proof {
                    assert(out@ =~= invalid_name_message(name@));
                }
                out
            },
            BindingError::ReservedName { name } => {
                let mut out = String::new();
                out.append("Environment variable name '");
                out.append(name.as_str());
                out.append("' is reserved (cannot start with 'CARGO_')");
                proof {
                    assert(out@ =~= reserved_name_message(name@));
                }
                out
            },
        }
    }
}

/// Whether `name` is well formed: an ASCII letter, then upper-case ASCII
/// letters, digits and underscores only.
pub fn is_valid_env_var_name(name: &str) -> (r: bool)
    ensures
        r == valid_env_var_name(name@),
{
    let chars = chars_of(name);
    if chars.len() == 0 {
        return false;
    }
    let first = chars[0];
    if !((first >= 'A' && first <= 'Z') || (first >= 'a' && first <= 'z')) {
        return false;
    }
    let mut i: usize = 1;
    while i < chars.len()
        invariant
            1 <= i <= chars.len(),
            chars@ == name@,
            forall|j: int| 1 <= j < i ==> is_name_char(#[trigger] name@[j]),
        decreases chars.len() - i,
    {
        let c = chars[i];
        if !((c >= 'A' && c <= 'Z') || (c >= '0' && c <= '9') || c == '_') {
            assert(!is_name_char(name@[i as int]));
            return false;
        }
        i += 1;
    }
    true
}

/// Whether `name` begins with the prefix of the names that Cargo keeps for
/// itself.
pub fn is_reserved_env_var_name(name: &str) -> (r: bool)
    ensures
        r == is_reserved_name(name@),
{
    proof {
        reveal_strlit("CARGO_");
        assert("CARGO_"@ =~= reserved_prefix());
    }
    starts_with(name, "CARGO_")
}

/// Checks that `name` can be bound. The form of the name is judged first:
/// a name that is both ill formed and reserved counts as ill formed.
pub fn check_env_var_name(name: &str) -> (r: Result<(), BindingError>)
    ensures
        r is Ok <==> accepted_name(name@),
        r is Err ==> r->Err_0.refusing(name@),
{
    if !is_valid_env_var_name(name) {
        return Err(BindingError::InvalidName { name: name.to_owned() });
    }
    if is_reserved_env_var_name(name) {
        return Err(BindingError::ReservedName { name: name.to_owned() });
    }
    Ok(())
}

/// A binding that the compiler can be handed: a name that is well formed
/// and not reserved, and the value as the caller gave it.
pub struct EnvBinding {
    name: String,
    value: String,
}

impl View for EnvBinding {
    type V = (Seq<char>, Seq<char>);

    closed spec fn view(&self) -> (Seq<char>, Seq<char>) {
        (self.name@, self.value@)
    }
}

impl EnvBinding {
    #[verifier::type_invariant]
    spec fn well_formed(self) -> bool {
        accepted_name(self.name@)
    }

    /// Binds `name` to `value`, or says why `name` cannot be bound.
    pub fn new(name: &str, value: &str) -> (r: Result<EnvBinding, BindingError>)
        ensures
            r is Ok <==> accepted_name(name@),
            r is Ok ==> r->Ok_0@ == (name@, value@),
            r is Err ==> r->Err_0.refusing(name@),
    {
        match check_env_var_name(name) {
            Ok(()) => Ok(EnvBinding { name: name.to_owned(), value: value.to_owned() }),
            Err(e) => Err(e),
        }
    }

    /// The name, which is always one that can be bound.
    pub fn name(&self) -> (r: &str)
        ensures
            r@ == self@.0,
            accepted_name(r@),
    {
        proof {
            use_type_invariant(self);
        }
        self.name.as_str()
    }

    /// The value as it was given, line breaks and all.
    pub fn value(&self) -> (r: &str)
        ensures
            r@ == self@.1,
    {
        self.value.as_str()
    }

    /// The line that hands this binding to Cargo.
    pub fn directive(&self) -> (r: String)
        ensures
            r@ == env_directive(self@.0, self@.1),
    {
        let escaped_value = escape_newlines(self.value.as_str());
        let mut out = String::new();
        out.append("cargo:rustc-env=");
        out.append(self.name.as_str());
        out.append("=");
        out.append(escaped_value.as_str());
        proof {
            assert(out@ =~= env_directive(self.name@, self.value@));
        }
        out
    }
}

/// A name that holds a blank, that begins with the reserved prefix, or
/// that starts with a digit cannot be bound.
pub proof fn lemma_rejected_names(name: Seq<char>)
    ensures
        name.contains(' ') ==> !accepted_name(name),
        is_reserved_name(name) ==> !accepted_name(name),
        name.len() > 0 && '0' <= name[0] <= '9' ==> !accepted_name(name),
{
    if name.contains(' ') {
        let i = choose|i: int| 0 <= i < name.len() && name[i] == ' ';
        if i > 0 {
            assert(!is_name_char(name[i]));
        }
    }
}

/// The line that hands a binding to Cargo is one line, whatever line breaks
/// the value holds.
pub proof fn lemma_directive_is_one_line(name: Seq<char>, value: Seq<char>)
    requires
        valid_env_var_name(name),
    ensures
        !env_directive(name, value).contains('\n'),
{
    reveal_strlit("cargo:rustc-env=");
    reveal_strlit("=");
    lemma_escaped_is_single_line(value);
    let head = "cargo:rustc-env="@;
    let tail = escaped(value);
    let line = env_directive(name, value);
    assert forall|i: int| 0 <= i < line.len() implies line[i] != '\n' by {
        if i < head.len() {
            assert(line[i] == head[i]);
        } else if i < head.len() + name.len() {
            let j = i - head.len();
            assert(line[i] == name[j]);
            if j > 0 {
                assert(is_name_char(name[j]));
            }
        } else if i == head.len() + name.len() {
            assert(line[i] == '=');
        } else {
            let j = i - head.len() - name.len() - 1;
            assert(line[i] == tail[j]);
            assert(tail.contains(tail[j]));
        }
    }
}

} // verus!
