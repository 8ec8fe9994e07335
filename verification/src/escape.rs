use vstd::prelude::*;

verus! {

/// The output syntaxes behind the one escaping interface: plain text,
/// HTML-safe text, and an escaped markdown-like syntax with quoted blocks.
#[derive(Clone, Copy, PartialEq, Eq, Structural, Debug)]
pub enum Syntax {
    Plain,
    Html,
    EscapedMarkdown,
}

/// Characters that are syntactically significant in the escaped-markdown
/// syntax; each is preceded by a backslash so that it renders literally.
pub open spec fn is_markdown_special(c: char) -> bool {
    c == '_' || c == '*' || c == '[' || c == ']' || c == '(' || c == ')'
        || c == '~' || c == '`' || c == '>' || c == '#' || c == '+' || c == '-'
        || c == '=' || c == '|' || c == '{' || c == '}' || c == '.' || c == '!'
        || c == '\\'
}

/// What a single character of raw text becomes in the given syntax.
/// In the escaped-markdown syntax a line break is followed by a quote
/// marker, so that every line of a quoted block starts with one.
pub open spec fn spec_escape_char(syntax: Syntax, c: char) -> Seq<char> {
    match syntax {
        Syntax::Plain => seq![c],
        Syntax::Html => if c == '&' {
            seq!['&', 'a', 'm', 'p', ';']
        } else if c == '<' {
            seq!['&', 'l', 't', ';']
        } else if c == '>' {
            seq!['&', 'g', 't', ';']
        } else {
            seq![c]
        },
        Syntax::EscapedMarkdown => if is_markdown_special(c) {
            seq!['\\', c]
        } else if c == '\n' {
            seq!['\n', '>']
        } else {
            seq![c]
        },
    }
}

/// The character-wise escaping of a whole text.
pub open spec fn spec_escape_chars(syntax: Syntax, s: Seq<char>) -> Seq<char>
    decreases s.len(),
{
    if s.len() == 0 {
        Seq::empty()
    } else {
        spec_escape_chars(syntax, s.drop_last()) + spec_escape_char(syntax, s.last())
    }
}

/// Full escaping of one untrusted text for the given syntax. Plain text is
/// the identity. In the escaped-markdown syntax a non-empty text becomes a
/// quoted block: a quote marker at the start and after every line break;
/// empty text stays empty and never gains a bare quote marker.
pub open spec fn spec_escape(syntax: Syntax, s: Seq<char>) -> Seq<char> {
    match syntax {
        Syntax::Plain => s,
        Syntax::Html => spec_escape_chars(syntax, s),
        Syntax::EscapedMarkdown => if s.len() == 0 {
            s
        } else {
            seq!['>'] + spec_escape_chars(syntax, s)
        },
    }
}

/// Relies on std's String::push: appends exactly the one character.
#[verifier::external_body]
pub(crate) fn push_char(s: &mut String, c: char)
    ensures
        final(s)@ == old(s)@.push(c),
{
    s.push(c);
}

/// Executable twin of `is_markdown_special`.
fn markdown_special(c: char) -> (r: bool)
    ensures
        r == is_markdown_special(c),
{
    c == '_' || c == '*' || c == '[' || c == ']' || c == '(' || c == ')'
        || c == '~' || c == '`' || c == '>' || c == '#' || c == '+' || c == '-'
        || c == '=' || c == '|' || c == '{' || c == '}' || c == '.' || c == '!'
        || c == '\\'
}

fn escape_html(raw: &str) -> (r: String)
    ensures
        r@ == spec_escape_chars(Syntax::Html, raw@),
{
    let n = raw.unicode_len();
    let mut out = String::new();
    let mut i: usize = 0;
    while i < n
        invariant
            n == raw@.len(),
            i <= n,
            out@ == spec_escape_chars(Syntax::Html, raw@.take(i as int)),
        decreases n - i,
    {
        let c = raw.get_char(i);
        let ghost prev = out@;
        if c == '&' {
            push_char(&mut out, '&');
            push_char(&mut out, 'a');
            push_char(&mut out, 'm');
            push_char(&mut out, 'p');
            push_char(&mut out, ';');
        } else if c == '<' {
            push_char(&mut out, '&');
            push_char(&mut out, 'l');
            push_char(&mut out, 't');
            push_char(&mut out, ';');
        } else if c == '>' {
            push_char(&mut out, '&');
            push_char(&mut out, 'g');
            push_char(&mut out, 't');
            push_char(&mut out, ';');
        } else {
            push_char(&mut out, c);
        }
        proof {
            assert(out@ =~= prev + spec_escape_char(Syntax::Html, c));
            assert(raw@.take(i + 1).drop_last() =~= raw@.take(i as int));
            assert(raw@.take(i + 1).last() == c);
        }
        i = i + 1;
    }
    proof {
        assert(raw@.take(n as int) =~= raw@);
    }
    out
}

fn escape_markdown(raw: &str) -> (r: String)
    ensures
        r@ == spec_escape(Syntax::EscapedMarkdown, raw@),
{
    let n = raw.unicode_len();
    let mut out = String::new();
    if n == 0 {
        proof {
            assert(raw@ =~= Seq::<char>::empty());
        }
        return out;
    }
    push_char(&mut out, '>');
    let mut i: usize = 0;
    while i < n
        invariant
            n == raw@.len(),
            i <= n,
            out@ == seq!['>'] + spec_escape_chars(Syntax::EscapedMarkdown, raw@.take(i as int)),
        decreases n - i,
    {
        let c = raw.get_char(i);
        let ghost prev = out@;
        if markdown_special(c) {
            push_char(&mut out, '\\');
            push_char(&mut out, c);
        } else if c == '\n' {
            push_char(&mut out, '\n');
            push_char(&mut out, '>');
        } else {
            push_char(&mut out, c);
        }
        proof {
            assert(out@ =~= prev + spec_escape_char(Syntax::EscapedMarkdown, c));
            assert(raw@.take(i + 1).drop_last() =~= raw@.take(i as int));
            assert(raw@.take(i + 1).last() == c);
        }
        i = i + 1;
    }
    proof {
        assert(raw@.take(n as int) =~= raw@);
    }
    out
}

/// Escape one piece of untrusted raw text for the target syntax. This is
/// stateless and pure: the result depends on the syntax and the raw text
/// alone, so it is applied exactly once, at the point of embedding.
pub fn escape(syntax: Syntax, raw: &str) -> (r: String)
    ensures
        r@ == spec_escape(syntax, raw@),
{
    match syntax {
        Syntax::Plain => raw.to_owned(),
        Syntax::Html => escape_html(raw),
        Syntax::EscapedMarkdown => escape_markdown(raw),
    }
}

/// Law: escaping is deterministic and independent of surrounding calls.
/// Two escapers over the same syntax give the same raw text the same
/// escaped form; no other state enters the result.
pub proof fn lemma_escape_deterministic(s1: Syntax, s2: Syntax, a: Seq<char>, b: Seq<char>)
    requires
        s1 == s2,
        a == b,
    ensures
        spec_escape(s1, a) == spec_escape(s2, b),
{
}

/// Law: empty text escapes to empty text in every syntax; it never gains
/// a stray escape or quote marker.
pub proof fn lemma_escape_empty(syntax: Syntax)
    ensures
        spec_escape(syntax, Seq::<char>::empty()) == Seq::<char>::empty(),
{
    assert(spec_escape_chars(syntax, Seq::<char>::empty()) =~= Seq::<char>::empty());
    assert(spec_escape(syntax, Seq::<char>::empty()) =~= Seq::<char>::empty());
}

} // verus!
