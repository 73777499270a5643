//! What a build script prints for Cargo to read, collected line by line.

use vstd::prelude::*;
use vstd::string::StringExecFns;
use crate::env_var::accepted_name;
use crate::env_var::env_directive;
use crate::env_var::BindingError;
use crate::env_var::EnvBinding;
use crate::outside::auto_indent;
use crate::outside::auto_indented;

verus! {

/// The line that tells Cargo to run the build script again when the file
/// at `path` changes.
pub open spec fn rerun_directive(path: Seq<char>) -> Seq<char> {
    "cargo:rerun-if-changed="@ + path
}

/// The lines that a build script is to print, in the order in which they
/// were emitted.
pub struct BuildOutput {
    lines: Vec<String>,
}

impl View for BuildOutput {
    type V = Seq<Seq<char>>;

    closed spec fn view(&self) -> Seq<Seq<char>> {
        self.lines.deep_view()
    }
}

impl BuildOutput {
    /// No lines yet.
    pub fn new() -> (r: BuildOutput)
        ensures
            r@ == Seq::<Seq<char>>::empty(),
    {
        let r = BuildOutput { lines: Vec::new() };
        proof {
            assert(r@ =~= Seq::<Seq<char>>::empty());
        }
        r
    }

    /// The lines emitted so far, oldest first.
    pub fn lines(&self) -> (r: &Vec<String>)
        ensures
            r.deep_view() == self@,
    {
        &self.lines
    }

    /// Adds one line after those that are there.
    pub fn emit(&mut self, line: String)
        ensures
            final(self)@ == old(self)@.push(line@),
    {
        let ghost before = self.lines.deep_view();
        self.lines.push(line);
        proof {
            assert(self.lines.deep_view() =~= before.push(line@));
        }
    }

    /// Asks Cargo to run the build script again when the file at `path`
    /// changes.
    pub fn rerun_if_changed(&mut self, path: &str)
        ensures
            final(self)@ == old(self)@.push(rerun_directive(path@)),
    {
        let mut line = String::new();
        line.append("cargo:rerun-if-changed=");
        line.append(path);
        proof {
            assert(line@ =~= rerun_directive(path@));
        }
        self.emit(line);
    }
}

/// Binds `var_name` to `value` for the compiler. Where the name can be
/// bound, one line is added to `out`, with the value in its escaped form.
/// Where it cannot, `out` stays as it is and the error says why.
pub fn set_cargo_env_var(out: &mut BuildOutput, var_name: &str, value: &str) -> (r: Result<
    (),
    BindingError,
>)
    ensures
        r is Ok <==> accepted_name(var_name@),
        r is Ok ==> final(out)@ == old(out)@.push(env_directive(var_name@, value@)),
        r is Err ==> final(out)@ == old(out)@ && r->Err_0.refusing(var_name@),
{
    match EnvBinding::new(var_name, value) {
        Ok(binding) => {
            out.emit(binding.directive());
            Ok(())
        },
        Err(e) => Err(e),
    }
}

/// Binds `var_name` to a multi-line `value` whose indentation is first
/// brought to that of its surroundings, so that the text reads the same
/// however deep it was written in the build script.
pub fn set_multi_line_cargo_env_var(out: &mut BuildOutput, var_name: &str, value: &str) -> (r:
    Result<(), BindingError>)
    ensures
        r is Ok <==> accepted_name(var_name@),
        r is Ok ==> final(out)@ == old(out)@.push(
            env_directive(var_name@, auto_indented(value@)),
        ),
        r is Err ==> final(out)@ == old(out)@ && r->Err_0.refusing(var_name@),
{
    let auto_indented_value = auto_indent(value);
    set_cargo_env_var(out, var_name, auto_indented_value.as_str())
}

} // verus!
