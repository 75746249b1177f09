//! Commands typed on the console's input line: a command word, matched without
//! regard to case, and its arguments.
use vstd::prelude::*;

verus! {

/// A command for the game client.
#[derive(Debug, PartialEq, Eq)]
pub enum CommandType {
    Chat(String),
    Goto(String),
    Mobkillaura(bool),
    Mine(String),
}

/// Whether `c` has Unicode's White_Space property.
pub open spec fn whitespace(c: char) -> bool {
    let u = c as u32;
    ||| 0x09 <= u <= 0x0D
    ||| u == 0x20
    ||| u == 0x85
    ||| u == 0xA0
    ||| u == 0x1680
    ||| 0x2000 <= u <= 0x200A
    ||| u == 0x2028
    ||| u == 0x2029
    ||| u == 0x202F
    ||| u == 0x205F
    ||| u == 0x3000
}

/// The lowercase mapping of `s`, character by character as Unicode defines it.
pub uninterp spec fn lowercase(s: Seq<char>) -> Seq<char>;

/// Whether `c` has Unicode's White_Space property, as `char::is_whitespace` decides.
pub fn is_whitespace(c: char) -> (r: bool)
    ensures
        r == whitespace(c),
{
    let u = c as u32;
    (0x09 <= u && u <= 0x0D) || u == 0x20 || u == 0x85 || u == 0xA0 || u == 0x1680
        || (0x2000 <= u && u <= 0x200A) || u == 0x2028 || u == 0x2029 || u == 0x202F
        || u == 0x205F || u == 0x3000
}

/// Relies on `str::to_lowercase`: the lowercase equivalent of `s`, which depends on
/// its characters alone.
#[verifier::external_body]
fn to_lowercase(s: &str) -> (r: String)
    ensures
        r@ == lowercase(s@),
{
    s.to_lowercase()
}

/// Number of white-space characters that `s` starts with.
pub open spec fn leading_space(s: Seq<char>) -> nat
    decreases s.len(),
{
    if s.len() > 0 && whitespace(s[0]) {
        1 + leading_space(s.skip(1))
    } else {
        0
    }
}

/// Number of other characters that `s` starts with.
pub open spec fn leading_word(s: Seq<char>) -> nat
    decreases s.len(),
{
    if s.len() > 0 && !whitespace(s[0]) {
        1 + leading_word(s.skip(1))
    } else {
        0
    }
}

/// Number of white-space characters that `s` ends with.
pub open spec fn trailing_space(s: Seq<char>) -> nat
    decreases s.len(),
{
    if s.len() > 0 && whitespace(s.last()) {
        1 + trailing_space(s.drop_last())
    } else {
        0
    }
}

/// `s` without leading and trailing white space.
pub open spec fn trimmed(s: Seq<char>) -> Seq<char> {
    let t = s.skip(leading_space(s) as int);
    t.take(t.len() - trailing_space(t))
}

/// The first white-space separated word of `s`; empty when it has none.
pub open spec fn first_word(s: Seq<char>) -> Seq<char> {
    let t = s.skip(leading_space(s) as int);
    t.take(leading_word(t) as int)
}

/// `s` with every leading repetition of `w` removed.
pub open spec fn strip_repeated(s: Seq<char>, w: Seq<char>) -> Seq<char>
    decreases s.len(),
{
    if 0 < w.len() <= s.len() && s.take(w.len() as int) == w {
        strip_repeated(s.skip(w.len() as int), w)
    } else {
        s
    }
}

/// The command word of a line, in lowercase.
pub open spec fn command_word(line: Seq<char>) -> Seq<char> {
    lowercase(first_word(line))
}

/// The arguments of a line: what follows its command word, trimmed.
pub open spec fn arguments(line: Seq<char>) -> Seq<char> {
    trimmed(strip_repeated(line, first_word(line)))
}

/// Whether `r` is the command on `line`: none when the line has no word, else the
/// one its command word names, with the line's arguments.
pub open spec fn parsed_as(line: Seq<char>, r: Option<CommandType>) -> bool {
    if first_word(line).len() == 0 {
        r is None
    } else {
        match r {
            Some(CommandType::Chat(a)) => command_word(line) == "chat"@ && a@ == arguments(line),
            Some(CommandType::Goto(a)) => command_word(line) == "goto"@ && a@ == arguments(line),
            Some(CommandType::Mine(a)) => command_word(line) == "mine"@ && a@ == arguments(line),
            Some(CommandType::Mobkillaura(on)) => command_word(line) == "mobkillaura"@
                && on == (arguments(line) == "on"@),
            None => command_word(line) != "chat"@ && command_word(line) != "goto"@
                && command_word(line) != "mine"@ && command_word(line) != "mobkillaura"@,
        }
    }
}

fn count_leading_space(s: &str, from: usize) -> (r: usize)
    requires
        from <= s@.len(),
    ensures
        r == from + leading_space(s@.skip(from as int)),
        r <= s@.len(),
{
    let n = s.unicode_len();
    let mut i = from;
    while i < n && is_whitespace(s.get_char(i))
        invariant
            n == s@.len(),
            from <= i <= n,
            leading_space(s@.skip(from as int)) == (i - from) + leading_space(s@.skip(i as int)),
        decreases n - i,
    {
        assert(s@.skip(i as int).skip(1) =~= s@.skip(i + 1));
        i += 1;
    }
    if i == n {
        assert(s@.skip(i as int).len() == 0);
    }
    i
}

fn count_leading_word(s: &str, from: usize) -> (r: usize)
    requires
        from <= s@.len(),
    ensures
        r == from + leading_word(s@.skip(from as int)),
        r <= s@.len(),
{
    let n = s.unicode_len();
    let mut i = from;
    while i < n && !is_whitespace(s.get_char(i))
        invariant
            n == s@.len(),
            from <= i <= n,
            leading_word(s@.skip(from as int)) == (i - from) + leading_word(s@.skip(i as int)),
        decreases n - i,
    {
        assert(s@.skip(i as int).skip(1) =~= s@.skip(i + 1));
        i += 1;
    }
    if i == n {
        assert(s@.skip(i as int).len() == 0);
    }
    i
}

/// `s` without leading and trailing white space.
fn trim(s: &str) -> (r: String)
    ensures
        r@ == trimmed(s@),
{
    let n = s.unicode_len();
    let a = count_leading_space(s, 0);
    assert(s@.skip(0) =~= s@);
    let t = s.substring_char(a, n);
    assert(t@ =~= s@.skip(a as int));
    let mut j = n - a;
    assert(t@.take(j as int) =~= t@);
    while j > 0 && is_whitespace(t.get_char(j - 1))
        invariant
            j <= t@.len(),
            t@.len() == n - a,
            trailing_space(t@) == (t@.len() - j) + trailing_space(t@.take(j as int)),
        decreases j,
    {
        assert(t@.take(j as int).drop_last() =~= t@.take(j - 1));
        j -= 1;
    }
    String::from_str(t.substring_char(0, j))
}

/// Whether `s` has `w` at character position `at`.
fn has_at(s: &str, at: usize, w: &str) -> (r: bool)
    requires
        at <= s@.len(),
    ensures
        r == (w@.len() <= s@.len() - at && s@.skip(at as int).take(w@.len() as int) == w@),
{
    let n = s.unicode_len();
    let wl = w.unicode_len();
    if wl > n - at {
        return false;
    }
    let part = String::from_str(s.substring_char(at, at + wl));
    let whole = String::from_str(w);
    assert(part@ =~= s@.skip(at as int).take(w@.len() as int));
    part == whole
}

/// `s` with every leading repetition of `w` removed.
fn strip_all(s: &str, w: &str) -> (r: String)
    ensures
        r@ == strip_repeated(s@, w@),
{
    let n = s.unicode_len();
    let wl = w.unicode_len();
    let mut k: usize = 0;
    assert(s@.skip(0) =~= s@);
    while wl > 0 && has_at(s, k, w)
        invariant
            n == s@.len(),
            wl == w@.len(),
            k <= n,
            strip_repeated(s@, w@) == strip_repeated(s@.skip(k as int), w@),
        decreases n - k,
    {
        assert(s@.skip(k as int).skip(wl as int) =~= s@.skip(k + wl));
        k += wl;
    }
    let r = String::from_str(s.substring_char(k, n));
    assert(r@ =~= s@.skip(k as int));
    r
}

/// The command that a lowercase command word names, with its arguments.
pub fn command_for(word: &str, args: String) -> (r: Option<CommandType>)
    ensures
        word@ == "chat"@ ==> r == Some(CommandType::Chat(args)),
        word@ == "goto"@ ==> r == Some(CommandType::Goto(args)),
        word@ == "mine"@ ==> r == Some(CommandType::Mine(args)),
        word@ == "mobkillaura"@ ==> r == Some(CommandType::Mobkillaura(args@ == "on"@)),
        word@ != "chat"@ && word@ != "goto"@ && word@ != "mine"@ && word@ != "mobkillaura"@
            ==> r is None,
{
    proof {
        reveal_strlit("chat");
        reveal_strlit("goto");
        reveal_strlit("mine");
        reveal_strlit("mobkillaura");
        assert("chat"@[0] != "goto"@[0] && "chat"@[0] != "mine"@[0] && "goto"@[0] != "mine"@[0]);
        assert("mobkillaura"@.len() != "chat"@.len());
    }
    let w = String::from_str(word);
    if w == String::from_str("chat") {
        Some(CommandType::Chat(args))
    } else if w == String::from_str("goto") {
        Some(CommandType::Goto(args))
    } else if w == String::from_str("mobkillaura") {
        let on = args == String::from_str("on");
        Some(CommandType::Mobkillaura(on))
    } else if w == String::from_str("mine") {
        Some(CommandType::Mine(args))
    } else {
        None
    }
}

/// The command on `line`, if its first word names one: `chat`, `goto` and `mine`
/// take the rest of the line, `mobkillaura` is switched on by exactly `on`.
pub fn parse_command(line: &str) -> (r: Option<CommandType>)
    ensures
        parsed_as(line@, r),
{
    let a = count_leading_space(line, 0);
    assert(line@.skip(0) =~= line@);
    let b = count_leading_word(line, a);
    let word = line.substring_char(a, b);
    assert(word@ =~= first_word(line@));
    if a == b {
        return None;
    }
    let args = trim(strip_all(line, word).as_str());
    let lower = to_lowercase(word);
    command_for(lower.as_str(), args)
}

} // verus!
