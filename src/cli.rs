//! The command line's values and the prompt they give.
use vstd::prelude::*;
use crate::error::AppError;
use crate::text::push_str;

verus! {

/// Subcommands.
#[derive(Debug, Clone, Copy, PartialEq, Eq, Structural)]
pub enum Commands {
    /// Start a personal chat session.
    Chat,
}

/// The parsed command line.
#[derive(Debug)]
pub struct Cli {
    /// Enable commands execution.
    pub execute: bool,
    /// Select a module to run.
    pub module: Option<String>,
    /// Input file to be used with the prompt.
    pub input: Option<String>,
    pub command: Option<Commands>,
    /// Words of the text prompt.
    pub prompt: Vec<String>,
}

/// The first `n` words, separated by single spaces.
pub open spec fn words_joined(ws: Seq<String>, n: nat) -> Seq<char>
    decreases n,
{
    if n == 0 {
        Seq::empty()
    } else if n == 1 {
        ws[0]@
    } else {
        words_joined(ws, (n - 1) as nat) + " "@ + ws[n - 1]@
    }
}

impl Cli {
    /// The prompt: the words joined by spaces. Without words it is absent
    /// when a subcommand was given, and the input is invalid otherwise.
    pub fn text(&self) -> (r: Result<Option<String>, AppError>)
        ensures
            self.prompt@.len() == 0 && self.command.is_some() ==> r == Ok::<
                Option<String>,
                AppError,
            >(None),
            self.prompt@.len() == 0 && self.command.is_none() ==> r == Err::<
                Option<String>,
                AppError,
            >(AppError::InvalidInput),
            self.prompt@.len() > 0 ==> (match r {
                Ok(Some(s)) => s@ == words_joined(self.prompt@, self.prompt@.len()),
                _ => false,
            }),
    {
        if self.prompt.len() == 0 {
            if self.command.is_some() {
                return Ok(None);
            }
            return Err(AppError::InvalidInput);
        }
        proof {
            reveal_strlit(" ");
        }
        let mut s = String::new();
        let mut i: usize = 0;
        while i < self.prompt.len()
            invariant
                i <= self.prompt@.len(),
                s@ == words_joined(self.prompt@, i as nat),
            decreases self.prompt.len() - i,
        {
            if i > 0 {
                push_str(&mut s, " ");
            }
            push_str(&mut s, self.prompt[i].as_str());
            assert(s@ =~= words_joined(self.prompt@, (i + 1) as nat));
            i = i + 1;
        }
        Ok(Some(s))
    }
}

} // verus!
