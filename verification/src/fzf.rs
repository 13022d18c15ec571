//! The fuzzy picker: an outside program that shows the user a list of
//! lines and prints the ones chosen.

use crate::command::{CommandOutput, Invocation, InvocationView, ToolError};
use crate::text::{chars_of, string_of, trim, trim_of, views};
use vstd::prelude::*;

verus! {

/// The candidates `names` joined by line breaks: one per line, each as it
/// is, with no line break before the first or after the last.
pub open spec fn picker_input(names: Seq<Seq<char>>) -> Seq<char>
    decreases names.len(),
{
    if names.len() == 0 {
        Seq::empty()
    } else if names.len() == 1 {
        names[0]
    } else {
        picker_input(names.drop_last()) + seq!['\n'] + names.last()
    }
}

/// What the user chose, given what the picker left behind: the trimmed
/// output of a picker that succeeded, and nothing otherwise.
pub open spec fn choice_of(output: CommandOutput) -> Seq<char> {
    if output.success {
        trim_of(output.stdout@)
    } else {
        Seq::empty()
    }
}

/// A call of the picker: the arguments it is given.
#[derive(Debug, PartialEq, Eq)]
pub struct FzfCmd {
    pub args: Vec<String>,
}

impl FzfCmd {
    /// A call without arguments.
    pub fn new() -> (r: Self)
        ensures
            r.args@.len() == 0,
    {
        FzfCmd { args: Vec::new() }
    }

    /// Adds one argument.
    pub fn _arg(&mut self, arg: &str)
        ensures
            views(final(self).args@) == views(old(self).args@).push(arg@),
    {
        let owned = arg.to_owned();
        assert(views(self.args@.push(owned)) =~= views(self.args@).push(arg@));
        self.args.push(owned);
    }

    /// Adds arguments, in their order.
    pub fn args(&mut self, args: &Vec<String>)
        ensures
            views(final(self).args@) == views(old(self).args@) + views(args@),
    {
        let mut i: usize = 0;
        assert(views(self.args@) =~= views(old(self).args@) + views(args@.take(0)));
        while i < args.len()
            invariant
                i <= args@.len(),
                views(self.args@) == views(old(self).args@) + views(args@.take(i as int)),
            decreases args@.len() - i,
        {
            let owned = args[i].clone();
            proof {
                assert(views(self.args@.push(owned)) =~= views(self.args@).push(owned@));
                assert(views(args@.take(i + 1)) =~= views(args@.take(i as int)).push(args@[i as int]@));
                assert(views(self.args@).push(owned@) =~= views(old(self).args@) + views(
                    args@.take(i + 1),
                ));
            }
            self.args.push(owned);
            i = i + 1;
        }
        assert(args@.take(args@.len() as int) =~= args@);
    }

    /// The command that runs the picker: `fzf` with the arguments.
    pub fn command(&self) -> (r: Invocation)
        ensures
            r@ == (InvocationView { program: "fzf"@, args: views(self.args@), dir: None }),
    {
        let mut args: Vec<String> = Vec::new();
        let mut i: usize = 0;
        while i < self.args.len()
            invariant
                i <= self.args@.len(),
                args@.len() == i,
                forall|j: int| 0 <= j < i ==> (#[trigger] args@[j])@ == self.args@[j]@,
            decreases self.args@.len() - i,
        {
            args.push(self.args[i].clone());
            i = i + 1;
        }
        let r = Invocation { program: "fzf".to_owned(), args, dir: None };
        assert(r@.args =~= views(self.args@));
        r
    }

    /// What to feed the picker so that the user chooses among `input`: the
    /// candidates joined by line breaks.
    pub fn find_vec(&self, input: &Vec<String>) -> (r: String)
        ensures
            r@ == picker_input(views(input@)),
    {
        let mut text: Vec<char> = Vec::new();
        let mut i: usize = 0;
        assert(views(input@).take(0) =~= Seq::<Seq<char>>::empty());
        while i < input.len()
            invariant
                i <= input@.len(),
                text@ == picker_input(views(input@).take(i as int)),
            decreases input@.len() - i,
        {
            let line = chars_of(input[i].as_str());
            let ghost before = text@;
            if i > 0 {
                text.push('\n');
            }
            let ghost start = text@;
            let mut k: usize = 0;
            assert(line@.take(0) =~= Seq::<char>::empty());
            assert(text@ =~= start + line@.take(0));
            while k < line.len()
                invariant
                    k <= line@.len(),
                    text@ == start + line@.take(k as int),
                decreases line@.len() - k,
            {
                text.push(line[k]);
                k = k + 1;
                assert(text@ =~= start + line@.take(k as int));
            }
            proof {
                let upto = views(input@).take(i + 1);
                assert(line@.take(line@.len() as int) =~= line@);
                assert(upto.drop_last() =~= views(input@).take(i as int));
                assert(upto.last() == line@);
                if i == 0 {
                    assert(upto.len() == 1);
                    assert(start + line@ =~= line@);
                } else {
                    assert(start == before + seq!['\n']);
                }
            }
            i = i + 1;
        }
        assert(views(input@).take(input@.len() as int) =~= views(input@));
        string_of(&text)
    }

    /// Reads the user's choice off what the picker left behind: what it
    /// printed, trimmed, where it succeeded; nothing where it failed, as it
    /// does when the user leaves without choosing. A picker that did not run
    /// is an error.
    pub fn find_string(&self, run: &Option<CommandOutput>) -> (r: Result<String, ToolError>)
        ensures
            match *run {
                None => r matches Err(ToolError::Unavailable),
                Some(output) => r matches Ok(choice) && choice@ == choice_of(output),
            },
    {
        match run {
            None => Err(ToolError::Unavailable),
            Some(output) => {
                if output.success {
                    Ok(string_of(&trim(&chars_of(output.stdout.as_str()))))
                } else {
                    Ok(String::new())
                }
            },
        }
    }
}

} // verus!
