//! The outbound command codec.
//!
//! Commands travel as one-line JSON-shaped text payloads of a fixed shape:
//! an activate command carries `event: "on"`, `type: "transcribe"` and a
//! `language` field; a deactivate command carries `event: "off"` and
//! `type: "transcribe"` with no language. The encoder produces exactly these
//! lines; the parser accepts exactly the lines the encoder can produce, and
//! nothing else.

use vstd::prelude::*;

verus! {

/// An outbound command, as the handlers construct it.
#[derive(Debug, Clone, PartialEq, Eq)]
pub enum Command {
    /// Ask the peer to start transcribing in the given language.
    Activate { language: String },
    /// Ask the peer to stop transcribing.
    Deactivate,
}

/// The text that precedes the language inside an activate command.
pub open spec fn activate_prefix() -> Seq<char> {
    "{\"event\": \"on\", \"type\": \"transcribe\", \"language\": \""@
}

/// The text that follows the language inside an activate command.
pub open spec fn activate_suffix() -> Seq<char> {
    "\"}"@
}

/// The whole text of a deactivate command.
pub open spec fn deactivate_line() -> Seq<char> {
    "{\"event\": \"off\", \"type\": \"transcribe\"}"@
}

/// A language tag is well formed when it contains no quote character, so
/// that it cannot escape the quoted field it is written into.
pub open spec fn language_wf(language: Seq<char>) -> bool {
    forall|i: int| 0 <= i < language.len() ==> language[i] != '"'
}

/// The encoding of an activate command for the given language.
pub open spec fn activate_encoding(language: Seq<char>) -> Seq<char> {
    activate_prefix() + language + activate_suffix()
}

/// The encoding of a command.
pub open spec fn encoding_of(c: Command) -> Seq<char> {
    match c {
        Command::Activate { language } => activate_encoding(language@),
        Command::Deactivate => deactivate_line(),
    }
}

/// A command is well formed when its language tag, if any, is.
pub open spec fn command_wf(c: Command) -> bool {
    match c {
        Command::Activate { language } => language_wf(language@),
        Command::Deactivate => true,
    }
}

/// What a parse result says of its input: a parsed command is one whose
/// encoding is exactly the input; a rejection says that the input is no
/// well-formed command's encoding at all.
pub open spec fn parse_characterizes(s: Seq<char>, r: Option<Command>) -> bool {
    match r {
        Some(c) => s == encoding_of(c) && command_wf(c),
        None => s != deactivate_line() && (forall|language: Seq<char>|
            language_wf(language) ==> s != #[trigger] activate_encoding(language)),
    }
}

/// Renders a command as its one-line text payload.
pub fn encode_command(c: &Command) -> (r: String)
    ensures
        r@ == encoding_of(*c),
{
    match c {
        Command::Activate { language } => {
            let s = String::from_str("{\"event\": \"on\", \"type\": \"transcribe\", \"language\": \"");
            let s = s.concat(language.as_str());
            let s = s.concat("\"}");
            s
        },
        Command::Deactivate => String::from_str("{\"event\": \"off\", \"type\": \"transcribe\"}"),
    }
}

/// Character-wise equality of two string slices.
fn str_eq(a: &str, b: &str) -> (r: bool)
    ensures
        r == (a@ == b@),
{
    let na = a.unicode_len();
    let nb = b.unicode_len();
    if na != nb {
        return false;
    }
    let mut i: usize = 0;
    while i < na
        invariant
            0 <= i <= na,
            na == a@.len(),
            na == b@.len(),
            forall|j: int| 0 <= j < i ==> a@[j] == b@[j],
        decreases na - i,
    {
        let ca = a.get_char(i);
        let cb = b.get_char(i);
        if ca != cb {
            return false;
        }
        i = i + 1;
    }
    proof {
        assert(a@ =~= b@);
    }
    true
}

/// Parses a one-line text payload back into a command. Returns the command
/// whose encoding is exactly the input, and `None` where the input is no
/// well-formed command's encoding.
pub fn parse_command(s: &str) -> (r: Option<Command>)
    ensures
        parse_characterizes(s@, r),
{
    let deactivate = "{\"event\": \"off\", \"type\": \"transcribe\"}";
    if str_eq(s, deactivate) {
        return Some(Command::Deactivate);
    }
    let prefix = "{\"event\": \"on\", \"type\": \"transcribe\", \"language\": \"";
    let suffix = "\"}";
    proof {
        reveal_strlit("{\"event\": \"on\", \"type\": \"transcribe\", \"language\": \"");
        reveal_strlit("\"}");
    }
    let n = s.unicode_len();
    let plen = prefix.unicode_len();
    assert(plen == activate_prefix().len());
    assert(plen == 51);
    if n < plen + 2 {
        proof {
            assert forall|language: Seq<char>| language_wf(language) implies
                s@ != #[trigger] activate_encoding(language) by {
                assert(activate_encoding(language).len() == 51 + language.len() + 2);
            }
        }
        return None;
    }
    let head = s.substring_char(0, plen);
    if !str_eq(head, prefix) {
        proof {
            assert forall|language: Seq<char>| language_wf(language) implies
                s@ != #[trigger] activate_encoding(language) by {
                if s@ == activate_encoding(language) {
                    assert(s@.subrange(0, 51) =~= activate_prefix());
                }
            }
        }
        return None;
    }
    let tail = s.substring_char(n - 2, n);
    if !str_eq(tail, suffix) {
        proof {
            assert forall|language: Seq<char>| language_wf(language) implies
                s@ != #[trigger] activate_encoding(language) by {
                if s@ == activate_encoding(language) {
                    assert(s@.subrange(n - 2, n as int) =~= activate_suffix());
                }
            }
        }
        return None;
    }
    let mid = s.substring_char(plen, n - 2);
    let mlen = n - 2 - plen;
    proof {
        assert(mid@.len() == mlen);
    }
    let mut i: usize = 0;
    while i < mlen
        invariant
            0 <= i <= mlen,
            s@.len() >= 53,
            mlen == mid@.len(),
            activate_prefix().len() == 51,
            activate_suffix().len() == 2,
            s@ != deactivate_line(),
            mid@ == s@.subrange(51, s@.len() - 2),
            forall|j: int| 0 <= j < i ==> mid@[j] != '"',
        decreases mlen - i,
    {
        let c = mid.get_char(i);
        if c == '"' {
            proof {
                assert forall|language: Seq<char>| language_wf(language) implies
                    s@ != #[trigger] activate_encoding(language) by {
                    if s@ == activate_encoding(language) {
                        assert(s@.len() == 53 + language.len());
                        assert(activate_encoding(language)[51 + i] == language[i as int]);
                        assert(mid@[i as int] == s@[51 + i]);
                        assert(language[i as int] == '"');
                    }
                }
            }
            return None;
        }
        i = i + 1;
    }
    let language = mid.to_owned();
    proof {
        assert(s@ =~= s@.subrange(0, 51) + s@.subrange(51, s@.len() - 2) + s@.subrange(
            s@.len() - 2,
            s@.len() as int,
        ));
        assert(s@ == activate_encoding(language@));
    }
    Some(Command::Activate { language })
}

/// Distinct well-formed commands have distinct encodings: the encoding
/// determines the command kind, and for activate commands the language.
pub proof fn lemma_encoding_injective(c1: Command, c2: Command)
    requires
        encoding_of(c1) == encoding_of(c2),
    ensures
        c1 is Activate <==> c2 is Activate,
        c1 matches Command::Activate { language: l1 } ==> (c2 matches Command::Activate {
            language: l2,
        } && l1@ == l2@),
{
    reveal_strlit("{\"event\": \"on\", \"type\": \"transcribe\", \"language\": \"");
    reveal_strlit("\"}");
    reveal_strlit("{\"event\": \"off\", \"type\": \"transcribe\"}");
    assert(activate_prefix().len() == 51);
    assert(deactivate_line().len() == 38);
    match c1 {
        Command::Activate { language: l1 } => {
            match c2 {
                Command::Activate { language: l2 } => {
                    assert(encoding_of(c1).len() == 53 + l1@.len());
                    assert(encoding_of(c2).len() == 53 + l2@.len());
                    assert(l1@.len() == l2@.len());
                    assert forall|j: int| 0 <= j < l1@.len() implies l1@[j] == l2@[j] by {
                        assert(encoding_of(c1)[51 + j] == l1@[j]);
                        assert(encoding_of(c2)[51 + j] == l2@[j]);
                    }
                    assert(l1@ =~= l2@);
                },
                Command::Deactivate => {
                    assert(encoding_of(c1).len() == 53 + l1@.len());
                    assert(encoding_of(c2).len() == 38);
                },
            }
        },
        Command::Deactivate => {
            match c2 {
                Command::Activate { language: l2 } => {
                    assert(encoding_of(c2).len() == 53 + l2@.len());
                    assert(encoding_of(c1).len() == 38);
                },
                Command::Deactivate => {},
            }
        },
    }
}

/// Round trip: a well-formed command's encoding parses back to the same
/// command — same kind, and for an activate command the same language.
pub proof fn lemma_round_trip(c: Command, r: Option<Command>)
    requires
        command_wf(c),
        parse_characterizes(encoding_of(c), r),
    ensures
        r is Some,
        c is Deactivate ==> r == Some(Command::Deactivate),
        c matches Command::Activate { language: l1 } ==> (r matches Some(
            Command::Activate { language: l2 },
        ) && l1@ == l2@),
{
    match r {
        Some(p) => {
            lemma_encoding_injective(c, p);
        },
        None => {
            match c {
                Command::Activate { language } => {
                    assert(encoding_of(c) == activate_encoding(language@));
                },
                Command::Deactivate => {
                    assert(encoding_of(c) == deactivate_line());
                },
            }
        },
    }
}

} // verus!
