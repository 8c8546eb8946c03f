//! The command words and their recognition.

use std::str::FromStr;
use vstd::prelude::*;
use vstd::string::*;
use vstd::utf8::*;

verus! {

/// The commands that can be asked for.
#[derive(PartialEq, Eq, Structural, Debug, Clone, Copy)]
pub enum Commands {
    Version,
    Header,
    Revision,
    Players,
    Success,
    StartTime,
}

impl Commands {
    /// The one word that selects this command.
    pub open spec fn spelling(self) -> Seq<char> {
        match self {
            Commands::Version => "version"@,
            Commands::Header => "header"@,
            Commands::Revision => "revision"@,
            Commands::Players => "players"@,
            Commands::Success => "success"@,
            Commands::StartTime => "start_time"@,
        }
    }
}

/// What a text stands for: the command whose spelling it is, or nothing.
pub open spec fn recognize(text: Seq<char>) -> Result<Commands, ()> {
    if text == Commands::Version.spelling() {
        Ok(Commands::Version)
    } else if text == Commands::Header.spelling() {
        Ok(Commands::Header)
    } else if text == Commands::Revision.spelling() {
        Ok(Commands::Revision)
    } else if text == Commands::Players.spelling() {
        Ok(Commands::Players)
    } else if text == Commands::Success.spelling() {
        Ok(Commands::Success)
    } else if text == Commands::StartTime.spelling() {
        Ok(Commands::StartTime)
    } else {
        Err(())
    }
}

/// Whether two byte strings hold the same bytes in the same order.
fn same_bytes(a: &[u8], b: &[u8]) -> (same: bool)
    ensures
        same == (a@ == b@),
{
    if a.len() != b.len() {
        return false;
    }
    let mut i: usize = 0;
    while i < a.len()
        invariant
            a@.len() == b@.len(),
            i <= a@.len(),
            forall|k: int| 0 <= k < i ==> a@[k] == b@[k],
        decreases a@.len() - i,
    {
        if a[i] != b[i] {
            return false;
        }
        i += 1;
    }
    assert(a@ =~= b@);
    true
}

/// Whether two texts hold the same characters in the same order.
fn same_text(a: &str, b: &str) -> (same: bool)
    ensures
        same == (a@ == b@),
{
    let same = same_bytes(a.as_bytes(), b.as_bytes());
    proof {
        // Two texts with the same encoding decode to the same characters.
        encode_utf8_decode_utf8(a@);
        encode_utf8_decode_utf8(b@);
    }
    same
}

impl FromStr for Commands {
    type Err = ();

    /// Reads a command from its word. The comparison is exact: case and
    /// surrounding blanks count.
    fn from_str(s: &str) -> (r: Result<Commands, ()>)
        ensures
            r == recognize(s@),
            r matches Ok(c) ==> s@ == c.spelling(),
            r is Err ==> forall|c: Commands| s@ != #[trigger] c.spelling(),
    {
        if same_text(s, "version") {
            Ok(Commands::Version)
        } else if same_text(s, "header") {
            Ok(Commands::Header)
        } else if same_text(s, "revision") {
            Ok(Commands::Revision)
        } else if same_text(s, "players") {
            Ok(Commands::Players)
        } else if same_text(s, "success") {
            Ok(Commands::Success)
        } else if same_text(s, "start_time") {
            Ok(Commands::StartTime)
        } else {
            Err(())
        }
    }
}

/// Each command is recognized from its own spelling.
pub proof fn spelling_is_recognized(c: Commands)
    ensures
        recognize(c.spelling()) == Ok::<Commands, ()>(c),
{
    spellings_differ();
}

/// A text is recognized as a command exactly when it is that command's
/// spelling, so no text stands for two commands and no other text stands for
/// any.
pub proof fn recognized_only_by_spelling(text: Seq<char>, c: Commands)
    ensures
        recognize(text) == Ok::<Commands, ()>(c) <==> text == c.spelling(),
{
    spellings_differ();
}

/// A text is refused exactly when it is the spelling of no command.
pub proof fn refused_without_spelling(text: Seq<char>)
    ensures
        recognize(text) is Err <==> forall|c: Commands| text != #[trigger] c.spelling(),
{
    if recognize(text) is Err {
        assert forall|c: Commands| text != #[trigger] c.spelling() by {
            recognized_only_by_spelling(text, c);
        }
    } else {
        let c = recognize(text)->Ok_0;
        recognized_only_by_spelling(text, c);
    }
}

/// Two commands with the same spelling are the same command.
pub proof fn spelling_is_injective(a: Commands, b: Commands)
    requires
        a.spelling() == b.spelling(),
    ensures
        a == b,
{
    spellings_differ();
}

/// Recognition looks at the characters of the text and at nothing else: two
/// texts that hold the same characters are recognized alike, whenever and
/// however often they are read.
pub proof fn recognition_follows_text(a: &str, b: &str)
    requires
        a@ == b@,
    ensures
        recognize(a@) == recognize(b@),
{
}

/// The six spellings differ from each other, by their length or by their
/// first or second character.
proof fn spellings_differ()
    ensures
        Commands::Version.spelling().len() == 7,
        Commands::Header.spelling().len() == 6,
        Commands::Revision.spelling().len() == 8,
        Commands::Players.spelling().len() == 7,
        Commands::Success.spelling().len() == 7,
        Commands::StartTime.spelling().len() == 10,
        Commands::Version.spelling()[0] == 'v',
        Commands::Players.spelling()[0] == 'p',
        Commands::Success.spelling()[0] == 's',
{
    reveal_strlit("version");
    reveal_strlit("header");
    reveal_strlit("revision");
    reveal_strlit("players");
    reveal_strlit("success");
    reveal_strlit("start_time");
}

} // verus!
