use vstd::prelude::*;
use vstd::string::*;

use crate::text::str_eq;

verus! {

/// The commands the interactive client understands.
#[derive(Clone, Copy, Debug, PartialEq, Eq, Structural)]
pub enum ClientCommand {
    /// `ls`: list the current directory.
    List,
    /// Anything else: nothing is done.
    Nothing,
}

/// The text of `s` before its first space, or all of it.
pub open spec fn first_word(s: Seq<char>) -> Seq<char>
    decreases s.len(),
{
    if s.len() == 0 {
        s
    } else if s[0] == ' ' {
        Seq::empty()
    } else {
        seq![s[0]] + first_word(s.drop_first())
    }
}

/// Reads commands and runs them against a directory served through
/// `client`.
pub struct CommandLineProcessor<C> {
    dir: String,
    client: C,
}

/// Holds the client of the root directory of a mount.
pub struct QuicFSAPIWrapper<C> {
    client: C,
}

impl<C> CommandLineProcessor<C> {
    /// A processor that talks through `client`, in the current directory.
    pub fn new(client: C) -> (r: CommandLineProcessor<C>)
        ensures
            r.dir_view().len() == 0,
            r.client_view() == client,
    {
        CommandLineProcessor { dir: String::new(), client }
    }

    pub closed spec fn dir_view(&self) -> Seq<char> {
        self.dir@
    }

    pub closed spec fn client_view(&self) -> C {
        self.client
    }

    /// The client this processor talks through.
    pub fn client(&self) -> (r: &C)
        ensures
            *r == self.client_view(),
    {
        &self.client
    }

    /// Which command a line of input asks for: its first word decides.
    pub fn parse_command(input: &str) -> (r: ClientCommand)
        ensures
            r == (if first_word(input@) == "ls"@ {
                ClientCommand::List
            } else {
                ClientCommand::Nothing
            }),
    {
        let n = input.unicode_len();
        let mut i: usize = 0;
        while i < n && input.get_char(i) != ' '
            invariant
                n == input@.len(),
                i <= n,
                forall|j: int| 0 <= j < i ==> input@[j] != ' ',
            decreases n - i,
        {
            i = i + 1;
        }
        proof {
            lemma_first_word(input@, i as int);
        }
        let word = input.substring_char(0, i);
        if str_eq(word, "ls") {
            ClientCommand::List
        } else {
            ClientCommand::Nothing
        }
    }
}

proof fn lemma_first_word(s: Seq<char>, i: int)
    requires
        0 <= i <= s.len(),
        forall|j: int| 0 <= j < i ==> s[j] != ' ',
        i == s.len() || s[i] == ' ',
    ensures
        first_word(s) == s.subrange(0, i),
    decreases s.len(),
{
    if s.len() == 0 {
    } else if i == 0 {
    } else {
        lemma_first_word(s.drop_first(), i - 1);
        assert(s.subrange(0, i) =~= seq![s[0]] + s.drop_first().subrange(0, i - 1));
    }
}

} // verus!
