use pic::options::Options;
use pic::result::Error;
use pic::support::{
    check_primary_attributes, find_match, read_step, reply_complete, truecolor, Detection, Key,
    Protocol, Replies, TerminalContext,
};

fn context(term: &str, program: &str, lc: &str) -> TerminalContext {
    TerminalContext {
        term: term.to_string(),
        term_program: program.to_string(),
        lc_terminal: lc.to_string(),
        colorterm: String::new(),
    }
}

fn replies(kitty: Option<&str>, sixel: Option<&str>) -> Replies {
    Replies {
        kitty: kitty.map(|reply| reply.chars().collect()),
        sixel: sixel.map(|reply| reply.chars().collect()),
    }
}

fn asked(protocol: Option<Protocol>, force: bool) -> Options {
    let mut options = Options::new(Vec::new());
    options.protocol = protocol;
    options.force = force;
    options
}

const KITTY_OK: &str = "\x1b_Gi=31;OK\x1b\\\x1b[?62;c";
const KITTY_SILENT: &str = "\x1b[?62;c";
const SIXEL_OK: &str = "\x1b[?62;4;9c";
const SIXEL_LAST: &str = "\x1b[?62;9;4c";
const SIXEL_NONE: &str = "\x1b[?62;14;9c";

#[test]
fn match_is_a_substring_of_the_variable() {
    assert!(find_match(&["xterm-kitty", "WezTerm"], "xterm-kitty"));
    assert!(find_match(&["xterm-kitty", "WezTerm"], "my-WezTerm-nightly"));
    assert!(find_match(&["xterm"], "xterm-256color"));
    assert!(!find_match(&["xterm-256color"], "xterm"));
    assert!(!find_match(&["xterm-kitty", "WezTerm"], "alacritty"));
    assert!(!find_match(&["xterm-kitty", "WezTerm"], ""));
    assert!(!find_match(&[], "xterm"));
}

#[test]
fn attributes_need_one_of_each_group() {
    let response: Vec<char> = SIXEL_OK.chars().collect();
    assert!(check_primary_attributes(&[vec![";4;", ";4c"]], &response));
    assert!(check_primary_attributes(&[vec![";4;"], vec!["62"]], &response));
    assert!(!check_primary_attributes(&[vec![";4;"], vec!["OK"]], &response));
    assert!(!check_primary_attributes(&[vec![]], &response));
    assert!(check_primary_attributes(&[], &response));
    let response: Vec<char> = SIXEL_NONE.chars().collect();
    assert!(!check_primary_attributes(&[vec![";4;", ";4c"]], &response));
}

#[test]
fn truecolor_is_announced_by_two_values() {
    assert!(truecolor("truecolor"));
    assert!(truecolor("24bit"));
    assert!(!truecolor(""));
    assert!(!truecolor("256"));
    assert!(!truecolor("truecolor "));
}

#[test]
fn query_of_kitty_asks_about_an_image_and_the_attributes() {
    assert_eq!(
        Protocol::Kitty.query(),
        Some("\x1b_Gi=31,s=1,v=1,a=q,t=d,f=24;AAAA\x1b\\\x1b[c".to_string())
    );
    assert_eq!(Protocol::Sixel.query(), Some("\x1b[c".to_string()));
    assert_eq!(Protocol::Iterm.query(), None);
    assert_eq!(Protocol::Blocks.query(), None);
}

#[test]
fn reading_goes_on_until_a_c_is_read() {
    let mut response = Vec::new();
    assert!(read_step(&mut response, Some(Key::Char('\x1b'))));
    assert!(read_step(&mut response, Some(Key::Other)));
    assert!(read_step(&mut response, Some(Key::UnknownEscSeq(vec!['[', '?', '6']))));
    assert!(read_step(&mut response, Some(Key::Char('2'))));
    assert!(!read_step(&mut response, Some(Key::Char('c'))));
    assert_eq!(response, vec!['\x1b', '[', '?', '6', '2', 'c']);
    assert!(reply_complete(&response));
}

#[test]
fn reading_ends_with_a_c_inside_an_escape_sequence() {
    let mut response = vec!['a'];
    assert!(!read_step(&mut response, Some(Key::UnknownEscSeq(vec!['[', 'c', 'x']))));
    assert_eq!(response, vec!['a', '[', 'c', 'x']);
}

#[test]
fn reading_ends_when_it_fails() {
    let mut response = vec!['a'];
    assert!(!read_step(&mut response, None));
    assert_eq!(response, vec!['a']);
    assert!(!reply_complete(&response));
}

#[test]
fn kitty_is_asked_about_first() {
    let ctx = context("xterm-kitty", "", "");
    let detection = Protocol::detect(&asked(None, false), &ctx, &replies(None, None));
    assert_eq!(detection, Detection::Query(Protocol::Kitty));
    let detection = Protocol::detect(&asked(None, false), &ctx, &replies(Some(KITTY_OK), None));
    assert_eq!(detection, Detection::Resolved(Protocol::Kitty));
}

#[test]
fn kitty_comes_before_inline_images() {
    let ctx = context("xterm-256color", "WezTerm", "");
    let detection = Protocol::detect(&asked(None, false), &ctx, &replies(None, None));
    assert_eq!(detection, Detection::Query(Protocol::Kitty));
    let detection = Protocol::detect(&asked(None, false), &ctx, &replies(Some(KITTY_OK), None));
    assert_eq!(detection, Detection::Resolved(Protocol::Kitty));
    let detection = Protocol::detect(&asked(None, false), &ctx, &replies(Some(KITTY_SILENT), None));
    assert_eq!(detection, Detection::Resolved(Protocol::Iterm));
}

#[test]
fn inline_images_are_known_by_the_environment_alone() {
    let detection = Protocol::detect(&asked(None, false), &context("", "iTerm.app", ""), &replies(None, None));
    assert_eq!(detection, Detection::Resolved(Protocol::Iterm));
    let detection = Protocol::detect(&asked(None, false), &context("xterm", "", "mintty"), &replies(None, None));
    assert_eq!(detection, Detection::Resolved(Protocol::Iterm));
    assert!(Protocol::support_iterm(&context("", "", "iTerm2")));
    assert!(!Protocol::support_iterm(&context("iTerm", "", "")));
}

#[test]
fn sixels_need_the_attribute_four() {
    let ctx = context("foot", "", "");
    let detection = Protocol::detect(&asked(None, false), &ctx, &replies(None, None));
    assert_eq!(detection, Detection::Query(Protocol::Sixel));
    for reply in [SIXEL_OK, SIXEL_LAST] {
        let detection = Protocol::detect(&asked(None, false), &ctx, &replies(None, Some(reply)));
        assert_eq!(detection, Detection::Resolved(Protocol::Sixel));
    }
    for reply in [SIXEL_NONE, ""] {
        let detection = Protocol::detect(&asked(None, false), &ctx, &replies(None, Some(reply)));
        assert_eq!(detection, Detection::Resolved(Protocol::Blocks));
    }
}

#[test]
fn blocks_are_the_fallback() {
    let detection = Protocol::detect(&asked(None, false), &context("linux", "", ""), &replies(None, None));
    assert_eq!(detection, Detection::Resolved(Protocol::Blocks));
    let detection = Protocol::detect(&asked(None, false), &context("", "", ""), &replies(Some(KITTY_OK), Some(SIXEL_OK)));
    assert_eq!(detection, Detection::Resolved(Protocol::Blocks));
}

#[test]
fn kitty_terminal_that_stays_silent_is_asked_about_sixels() {
    // "xterm-kitty" holds "xterm", which speaks for sixels
    let ctx = context("xterm-kitty", "", "");
    let detection = Protocol::detect(&asked(None, false), &ctx, &replies(Some(""), None));
    assert_eq!(detection, Detection::Query(Protocol::Sixel));
    let detection = Protocol::detect(&asked(None, false), &ctx, &replies(Some(""), Some("")));
    assert_eq!(detection, Detection::Resolved(Protocol::Blocks));
}

#[test]
fn protocol_that_is_asked_for_is_checked() {
    let ctx = context("foot", "", "");
    let detection = Protocol::detect(&asked(Some(Protocol::Kitty), false), &ctx, &replies(None, None));
    assert_eq!(detection, Detection::Unsupported(Protocol::Kitty));
    let detection = Protocol::detect(&asked(Some(Protocol::Iterm), false), &ctx, &replies(None, None));
    assert_eq!(detection, Detection::Unsupported(Protocol::Iterm));
    let detection = Protocol::detect(&asked(Some(Protocol::Sixel), false), &ctx, &replies(None, None));
    assert_eq!(detection, Detection::Query(Protocol::Sixel));
    let detection = Protocol::detect(&asked(Some(Protocol::Sixel), false), &ctx, &replies(None, Some(SIXEL_NONE)));
    assert_eq!(detection, Detection::Unsupported(Protocol::Sixel));
    let detection = Protocol::detect(&asked(Some(Protocol::Sixel), false), &ctx, &replies(None, Some(SIXEL_OK)));
    assert_eq!(detection, Detection::Resolved(Protocol::Sixel));
    let detection = Protocol::detect(&asked(Some(Protocol::Blocks), false), &ctx, &replies(None, None));
    assert_eq!(detection, Detection::Resolved(Protocol::Blocks));
}

#[test]
fn protocol_that_is_forced_is_chosen_unasked() {
    let ctx = context("linux", "", "");
    for protocol in [Protocol::Kitty, Protocol::Iterm, Protocol::Sixel, Protocol::Blocks] {
        let detection = Protocol::detect(&asked(Some(protocol), true), &ctx, &replies(None, None));
        assert_eq!(detection, Detection::Resolved(protocol));
    }
}

#[test]
fn force_without_a_protocol_changes_nothing() {
    let ctx = context("linux", "", "");
    let detection = Protocol::detect(&asked(None, true), &ctx, &replies(None, None));
    assert_eq!(detection, Detection::Resolved(Protocol::Blocks));
}

#[test]
fn support_follows_environment_and_replies() {
    let ctx = context("xterm-kitty", "", "");
    assert_eq!(Protocol::support_kitty(&ctx, &replies(None, None)), None);
    assert_eq!(Protocol::support_kitty(&ctx, &replies(Some(KITTY_OK), None)), Some(true));
    assert_eq!(Protocol::support_kitty(&ctx, &replies(Some(KITTY_SILENT), None)), Some(false));
    assert_eq!(Protocol::support_kitty(&context("foot", "", ""), &replies(Some(KITTY_OK), None)), Some(false));
    assert_eq!(Protocol::support_kitty(&context("", "WezTerm", ""), &replies(Some(KITTY_OK), None)), Some(true));
    assert_eq!(Protocol::support_sixel(&ctx, &replies(None, None)), None);
    assert_eq!(Protocol::support_sixel(&ctx, &replies(None, Some(SIXEL_OK))), Some(true));
    assert_eq!(Protocol::support_sixel(&context("", "xterm", ""), &replies(None, Some(SIXEL_OK))), Some(false));
}

#[test]
fn outcome_of_a_detection() {
    assert!(matches!(Detection::Resolved(Protocol::Sixel).outcome(), Some(Ok(Protocol::Sixel))));
    assert!(matches!(
        Detection::Unsupported(Protocol::Kitty).outcome(),
        Some(Err(Error::ProtocolUnsupported(Protocol::Kitty)))
    ));
    assert!(Detection::Query(Protocol::Kitty).outcome().is_none());
}

#[test]
fn protocols_have_names() {
    assert_eq!(Protocol::Kitty.name(), "Kitty graphics protocol");
    assert_eq!(Protocol::Sixel.name(), "Sixel protocol");
    assert_eq!(Protocol::Iterm.name(), "iTerm protocol");
    assert_eq!(Protocol::Blocks.name(), "Unicode blocks");
}
