use crate::options::Options;
use crate::result::Error;
use crate::text::{chars_of, contains, contains_chars};
use vstd::prelude::*;
use vstd::string::StringExecFns;

verus! {

/// The graphics protocols that an image can be previewed with.
#[derive(Clone, Copy, Debug, PartialEq, Eq, PartialOrd, Ord, Structural)]
pub enum Protocol {
    Kitty,
    Sixel,
    Iterm,
    Blocks,
}

/// What the environment says of the terminal: the values of `TERM`,
/// `TERM_PROGRAM`, `LC_TERMINAL` and `COLORTERM`, each empty where it is not
/// set.
#[derive(Clone, Debug)]
pub struct TerminalContext {
    pub term: String,
    pub term_program: String,
    pub lc_terminal: String,
    pub colorterm: String,
}

/// What the terminal answered to the queries that were sent to it so far. An
/// answer that never came, or came garbled, is an empty one.
#[derive(Clone, Debug)]
pub struct Replies {
    /// the answer to the query of the Kitty graphics protocol
    pub kitty: Option<Vec<char>>,
    /// the answer to the query of the device attributes
    pub sixel: Option<Vec<char>>,
}

/// A key that was read from the terminal.
#[derive(Clone, Debug)]
pub enum Key {
    /// a character
    Char(char),
    /// an escape sequence that stands for no key
    UnknownEscSeq(Vec<char>),
    /// any other key
    Other,
}

/// How far the choice of a protocol has come.
#[derive(Clone, Copy, Debug, PartialEq, Eq, Structural)]
pub enum Detection {
    /// The protocol is chosen.
    Resolved(Protocol),
    /// The protocol that was asked for is not one that the terminal
    /// understands.
    Unsupported(Protocol),
    /// The terminal is to be sent the query of this protocol, and its answer
    /// added to the replies.
    Query(Protocol),
}

impl Detection {
    /// How the choice has ended, if it has: with the protocol that was
    /// chosen, or with the error that tells which protocol the terminal does
    /// not understand.
    pub fn outcome(&self) -> (outcome: Option<Result<Protocol, Error>>)
        ensures
            outcome == match *self {
                Detection::Resolved(protocol) => Some(Ok::<Protocol, Error>(protocol)),
                Detection::Unsupported(protocol) => Some(
                    Err::<Protocol, Error>(Error::ProtocolUnsupported(protocol)),
                ),
                Detection::Query(_) => None,
            },
    {
        match self {
            Detection::Resolved(protocol) => Some(Ok(*protocol)),
            Detection::Unsupported(protocol) => Some(Err(Error::ProtocolUnsupported(*protocol))),
            Detection::Query(_) => None,
        }
    }
}

/// Whether one of the texts of `list` stands in `var`.
pub open spec fn matches_any(list: Seq<&str>, var: Seq<char>) -> bool {
    exists|i: int| 0 <= i < list.len() && contains(var, (#[trigger] list[i])@)
}

/// Whether each group of `attrs` has a text that stands in `response`.
pub open spec fn attributes_found(attrs: Seq<Vec<&str>>, response: Seq<char>) -> bool {
    forall|g: int| 0 <= g < attrs.len() ==> matches_any((#[trigger] attrs[g])@, response)
}

/// The names by which terminals that understand the Kitty graphics protocol
/// are known.
pub open spec fn kitty_names() -> Seq<&'static str> {
    seq!["xterm-kitty", "WezTerm"]
}

/// The names by which terminals that show sixels are known.
pub open spec fn sixel_names() -> Seq<&'static str> {
    seq!["xterm-256color", "xterm", "yaft-256color", "st-256color", "foot-extra", "foot", "mlterm"]
}

/// The names by which terminals that show inline images are known.
pub open spec fn iterm_names() -> Seq<&'static str> {
    seq!["iTerm", "WezTerm", "mintty"]
}

/// Whether the environment speaks for a protocol. Half blocks are always
/// spoken for.
pub open spec fn env_accepts(context: TerminalContext, protocol: Protocol) -> bool {
    match protocol {
        Protocol::Kitty => matches_any(kitty_names(), context.term@) || matches_any(
            kitty_names(),
            context.term_program@,
        ),
        Protocol::Iterm => matches_any(iterm_names(), context.term_program@) || matches_any(
            iterm_names(),
            context.lc_terminal@,
        ),
        Protocol::Sixel => matches_any(sixel_names(), context.term@),
        Protocol::Blocks => true,
    }
}

/// The query of the device attributes, which every terminal answers with a
/// text that ends in `c`.
pub open spec fn attributes_query() -> Seq<char> {
    "\x1b[c"@
}

/// The query that is sent to the terminal for a protocol, for those that the
/// terminal is asked about: for the Kitty graphics protocol a command that
/// asks whether an image of one pixel could be shown, and for both the query
/// of the device attributes.
pub open spec fn query_text(protocol: Protocol) -> Option<Seq<char>> {
    match protocol {
        Protocol::Kitty => Some("\x1b_Gi=31,s=1,v=1,a=q,t=d,f=24;AAAA\x1b\\"@ + attributes_query()),
        Protocol::Sixel => Some(attributes_query()),
        _ => None,
    }
}

/// Whether the terminal's answer speaks for a protocol that it was asked
/// about: `OK` for the Kitty graphics protocol, the attribute 4 for sixels.
pub open spec fn reply_accepts(protocol: Protocol, response: Seq<char>) -> bool {
    match protocol {
        Protocol::Kitty => contains(response, "OK"@),
        Protocol::Sixel => contains(response, ";4;"@) || contains(response, ";4c"@),
        _ => true,
    }
}

/// Whether the terminal understands a protocol, as far as the replies tell:
/// nothing is known of a protocol that the environment speaks for while the
/// terminal was not yet asked about it.
pub open spec fn supported(context: TerminalContext, replies: Replies, protocol: Protocol)
    -> Option<bool> {
    if !env_accepts(context, protocol) {
        Some(false)
    } else {
        match protocol {
            Protocol::Kitty => match replies.kitty {
                None => None,
                Some(response) => Some(reply_accepts(protocol, response@)),
            },
            Protocol::Sixel => match replies.sixel {
                None => None,
                Some(response) => Some(reply_accepts(protocol, response@)),
            },
            _ => Some(true),
        }
    }
}

/// What is known of one protocol, as a step of the choice: without more, the
/// choice goes on to `otherwise`.
pub open spec fn try_protocol(
    context: TerminalContext,
    replies: Replies,
    protocol: Protocol,
    otherwise: Detection,
) -> Detection {
    match supported(context, replies, protocol) {
        None => Detection::Query(protocol),
        Some(true) => Detection::Resolved(protocol),
        Some(false) => otherwise,
    }
}

/// The choice of a protocol.
///
/// A protocol that the options ask for is the only one that can be chosen: it
/// is chosen unasked where the options force it, and else where the terminal
/// understands it. Where the options ask for none, the first protocol that
/// the terminal understands is chosen, of the Kitty graphics protocol, inline
/// images, sixels and half blocks, in this order. The terminal is asked about
/// a protocol only when the choice has come to it and the environment speaks
/// for it.
pub open spec fn choice(options: Options, context: TerminalContext, replies: Replies)
    -> Detection {
    match options.protocol {
        Some(protocol) => if options.force {
            Detection::Resolved(protocol)
        } else {
            try_protocol(context, replies, protocol, Detection::Unsupported(protocol))
        },
        None => try_protocol(
            context,
            replies,
            Protocol::Kitty,
            try_protocol(
                context,
                replies,
                Protocol::Iterm,
                try_protocol(
                    context,
                    replies,
                    Protocol::Sixel,
                    Detection::Resolved(Protocol::Blocks),
                ),
            ),
        ),
    }
}

/// Tells whether one of the texts of `list` stands in `hay`.
fn any_contained(list: &[&str], hay: &[char]) -> (found: bool)
    ensures
        found == matches_any(list@, hay@),
{
    let mut i: usize = 0;
    while i < list.len()
        invariant
            i <= list@.len(),
            forall|k: int| 0 <= k < i ==> !contains(hay@, (#[trigger] list@[k])@),
        decreases list@.len() - i,
    {
        let needle = chars_of(list[i]);
        if contains_chars(hay, needle.as_slice()) {
            return true;
        }
        i += 1;
    }
    false
}

/// Tells whether one of the texts of `list` stands in `var`.
pub fn find_match(list: &[&str], var: &str) -> (found: bool)
    ensures
        found == matches_any(list@, var@),
{
    let hay = chars_of(var);
    any_contained(list, hay.as_slice())
}

/// Tells whether the terminal's answer holds the attributes that are asked
/// for: of each group at least one.
pub fn check_primary_attributes(attrs: &[Vec<&str>], response: &[char]) -> (found: bool)
    ensures
        found == attributes_found(attrs@, response@),
{
    let mut g: usize = 0;
    while g < attrs.len()
        invariant
            g <= attrs@.len(),
            forall|k: int| 0 <= k < g ==> matches_any((#[trigger] attrs@[k])@, response@),
        decreases attrs@.len() - g,
    {
        if !any_contained(attrs[g].as_slice(), response) {
            return false;
        }
        g += 1;
    }
    true
}

/// Tells whether the environment announces a terminal that shows colours of
/// 24 bits: `COLORTERM` is `truecolor` or `24bit`.
pub fn truecolor(colorterm: &str) -> (supported: bool)
    ensures
        supported == (colorterm@ == "truecolor"@ || colorterm@ == "24bit"@),
{
    let value = String::from_str(colorterm);
    value == String::from_str("truecolor") || value == String::from_str("24bit")
}

/// The characters that a key adds to the terminal's answer.
pub open spec fn key_chars(key: Option<Key>) -> Seq<char> {
    match key {
        Some(Key::Char(chr)) => seq![chr],
        Some(Key::UnknownEscSeq(esc)) => esc@,
        _ => Seq::empty(),
    }
}

/// Tells whether the terminal's answer is complete: it holds a `c`, which
/// ends the answer to the query of the device attributes.
pub fn reply_complete(response: &[char]) -> (complete: bool)
    ensures
        complete == response@.contains('c'),
{
    let mut i: usize = 0;
    while i < response.len()
        invariant
            i <= response@.len(),
            forall|k: int| 0 <= k < i ==> response@[k] != 'c',
        decreases response@.len() - i,
    {
        if response[i] == 'c' {
            return true;
        }
        i += 1;
    }
    false
}

/// Takes in what was read from the terminal, a key or nothing where the
/// reading failed, and tells whether more is to be read. The characters of
/// the key are added to the answer. Reading goes on until the answer is
/// complete or the reading fails.
pub fn read_step(response: &mut Vec<char>, key: Option<Key>) -> (more: bool)
    ensures
        final(response)@ == old(response)@ + key_chars(key),
        more == (key is Some && !final(response)@.contains('c')),
{
    match key {
        Some(Key::Char(chr)) => {
            response.push(chr);
            assert(response@ =~= old(response)@ + key_chars(key));
            !reply_complete(response.as_slice())
        },
        Some(Key::UnknownEscSeq(esc)) => {
            response.extend_from_slice(esc.as_slice());
            !reply_complete(response.as_slice())
        },
        Some(Key::Other) => {
            assert(response@ =~= old(response)@ + key_chars(key));
            !reply_complete(response.as_slice())
        },
        None => {
            assert(response@ =~= old(response)@ + key_chars(key));
            false
        },
    }
}

/// Tells whether the terminal's answer speaks for the Kitty graphics
/// protocol.
fn kitty_reply_accepts(response: &[char]) -> (accepted: bool)
    ensures
        accepted == reply_accepts(Protocol::Kitty, response@),
{
    // Attrs check (send a kitty request)
    let attrs = vec![vec!["OK"]];
    proof {
        assert(attrs@[0]@[0]@ == "OK"@);
        if contains(response@, "OK"@) {
            assert(matches_any(attrs@[0]@, response@));
        }
    }
    check_primary_attributes(attrs.as_slice(), response)
}

/// Tells whether the terminal's answer speaks for sixels.
fn sixel_reply_accepts(response: &[char]) -> (accepted: bool)
    ensures
        accepted == reply_accepts(Protocol::Sixel, response@),
{
    // Attrs check (4 is for sixel support)
    let attrs = vec![vec![";4;", ";4c"]];
    proof {
        assert(attrs@[0]@[0]@ == ";4;"@);
        assert(attrs@[0]@[1]@ == ";4c"@);
        if contains(response@, ";4;"@) || contains(response@, ";4c"@) {
            assert(matches_any(attrs@[0]@, response@));
        }
    }
    check_primary_attributes(attrs.as_slice(), response)
}

impl Protocol {
    /// The name of the protocol, as a message shows it.
    pub open spec fn spec_name(&self) -> Seq<char> {
        match *self {
            Protocol::Kitty => "Kitty graphics protocol"@,
            Protocol::Sixel => "Sixel protocol"@,
            Protocol::Iterm => "iTerm protocol"@,
            Protocol::Blocks => "Unicode blocks"@,
        }
    }

    /// The name of the protocol, as a message shows it.
    pub fn name(&self) -> (name: &'static str)
        ensures
            name@ == self.spec_name(),
    {
        match self {
            Protocol::Kitty => "Kitty graphics protocol",
            Protocol::Sixel => "Sixel protocol",
            Protocol::Iterm => "iTerm protocol",
            Protocol::Blocks => "Unicode blocks",
        }
    }

    /// The query that is sent to the terminal for the protocol, if the
    /// terminal is asked about it.
    pub fn query(&self) -> (query: Option<String>)
        ensures
            match query_text(*self) {
                Some(text) => query matches Some(query) && query@ == text,
                None => query is None,
            },
    {
        match self {
            Protocol::Kitty => {
                let mut query = String::from_str("\x1b_Gi=31,s=1,v=1,a=q,t=d,f=24;AAAA\x1b\\");
                query.append("\x1b[c");
                Some(query)
            },
            Protocol::Sixel => Some(String::from_str("\x1b[c")),
            _ => None,
        }
    }

    /// Tells whether the terminal understands the Kitty graphics protocol, as
    /// far as the replies tell.
    pub fn support_kitty(context: &TerminalContext, replies: &Replies) -> (known: Option<bool>)
        ensures
            known == supported(*context, *replies, Protocol::Kitty),
    {
        // Term check
        let names: [&str; 2] = ["xterm-kitty", "WezTerm"];
        assert(names@ =~= kitty_names());
        if !(find_match(names.as_slice(), context.term.as_str()) || find_match(
            names.as_slice(),
            context.term_program.as_str(),
        )) {
            return Some(false);
        }
        match &replies.kitty {
            None => None,
            Some(response) => Some(kitty_reply_accepts(response.as_slice())),
        }
    }

    /// Tells whether the terminal shows sixels, as far as the replies tell.
    pub fn support_sixel(context: &TerminalContext, replies: &Replies) -> (known: Option<bool>)
        ensures
            known == supported(*context, *replies, Protocol::Sixel),
    {
        // Term check
        let names: [&str; 7] = [
            "xterm-256color",
            "xterm",
            "yaft-256color",
            "st-256color",
            "foot-extra",
            "foot",
            "mlterm",
        ];
        assert(names@ =~= sixel_names());
        if !find_match(names.as_slice(), context.term.as_str()) {
            return Some(false);
        }
        match &replies.sixel {
            None => None,
            Some(response) => Some(sixel_reply_accepts(response.as_slice())),
        }
    }

    /// Tells whether the terminal shows inline images, which the environment
    /// alone decides.
    pub fn support_iterm(context: &TerminalContext) -> (known: bool)
        ensures
            known == env_accepts(*context, Protocol::Iterm),
            forall|replies: Replies| #[trigger]
                supported(*context, replies, Protocol::Iterm) == Some(known),
    {
        // Term check
        let names: [&str; 3] = ["iTerm", "WezTerm", "mintty"];
        assert(names@ =~= iterm_names());
        find_match(names.as_slice(), context.term_program.as_str()) || find_match(
            names.as_slice(),
            context.lc_terminal.as_str(),
        )
    }

    /// Chooses the protocol to preview with, or tells what the terminal is to
    /// be asked before the choice can be made. A query is only ever asked for
    /// while its answer is not among the replies, and a protocol that the
    /// environment speaks against is only chosen where the options force it.
    pub fn detect(options: &Options, context: &TerminalContext, replies: &Replies) -> (detection:
        Detection)
        ensures
            detection == choice(*options, *context, *replies),
            detection matches Detection::Query(protocol) ==> (protocol == Protocol::Kitty
                && replies.kitty is None) || (protocol == Protocol::Sixel && replies.sixel is None),
            detection matches Detection::Resolved(protocol) ==> env_accepts(*context, protocol) || (
            options.force && options.protocol == Some(protocol)),
    {
        if let Some(protocol) = options.protocol {
            if options.force {
                return Detection::Resolved(protocol);
            }
            let known = match protocol {
                Protocol::Kitty => Protocol::support_kitty(context, replies),
                Protocol::Sixel => Protocol::support_sixel(context, replies),
                Protocol::Iterm => Some(Protocol::support_iterm(context)),
                Protocol::Blocks => Some(true),
            };
            return match known {
                None => Detection::Query(protocol),
                Some(true) => Detection::Resolved(protocol),
                Some(false) => Detection::Unsupported(protocol),
            };
        }
        match Protocol::support_kitty(context, replies) {
            None => {
                return Detection::Query(Protocol::Kitty);
            },
            Some(true) => {
                return Detection::Resolved(Protocol::Kitty);
            },
            Some(false) => {},
        }
        if Protocol::support_iterm(context) {
            return Detection::Resolved(Protocol::Iterm);
        }
        match Protocol::support_sixel(context, replies) {
            None => Detection::Query(Protocol::Sixel),
            Some(true) => Detection::Resolved(Protocol::Sixel),
            Some(false) => Detection::Resolved(Protocol::Blocks),
        }
    }
}

/// No protocol is chosen against the environment unless the options force
/// it: the protocol that a choice ends in is one that the environment speaks
/// for, or the one that the options ask for and force.
pub proof fn lemma_choice_respects_environment(
    options: Options,
    context: TerminalContext,
    replies: Replies,
)
    ensures
        choice(options, context, replies) matches Detection::Resolved(protocol) ==> env_accepts(
            context,
            protocol,
        ) || (options.force && options.protocol == Some(protocol)),
{
}

/// An answer settles a query: once the terminal's answers to both queries are
/// among the replies, the choice is made or has failed.
pub proof fn lemma_choice_ends(options: Options, context: TerminalContext, replies: Replies)
    requires
        replies.kitty is Some,
        replies.sixel is Some,
    ensures
        !(choice(options, context, replies) is Query),
{
}

} // verus!
