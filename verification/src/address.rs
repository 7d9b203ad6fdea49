//! Which addresses the URL parser is certain to take.
//!
//! `url` counts the characters of an address in a signed 32-bit integer. It
//! hands the host to `idna`, if the scheme is one of those that it knows, and
//! `idna` writes a label that is not ASCII in Punycode. For that it counts, in
//! an unsigned 32-bit integer, how far apart the code points of the label are.
//! Where integers are checked for overflow, a count that does not fit is a
//! panic.
use vstd::prelude::*;
use vstd::slice::slice_subrange;
use vstd::string::StrSliceExecFns;

verus! {

/// How many characters of an address `url` can count.
pub const MAX_ADDRESS: usize = 0x7fff_ffff;

/// How many code points there are.
pub const CODE_POINTS: u64 = 0x11_0000;

/// The sets of characters that make up the parts of an address.
#[derive(Clone, Copy)]
pub enum Part {
    /// What is passed over at the beginning: blanks and control characters.
    Margin,
    /// What can precede the colon after the scheme.
    Scheme,
    /// The slashes, of either kind, before the authority.
    Slashes,
    /// What can stand in the authority.
    Authority,
}

impl Part {
    /// Whether the character can stand in this part.
    pub open spec fn holds(self, c: char) -> bool {
        match self {
            Part::Margin => (c as u32) <= 0x20,
            Part::Scheme => c != ':',
            Part::Slashes => c == '/' || c == '\\',
            Part::Authority => c != '/' && c != '\\' && c != '?' && c != '#',
        }
    }

    /// Tells whether the character can stand in this part.
    fn accepts(self, c: char) -> (r: bool)
        ensures
            r == self.holds(c),
    {
        match self {
            Part::Margin => (c as u32) <= 0x20,
            Part::Scheme => c != ':',
            Part::Slashes => c == '/' || c == '\\',
            Part::Authority => c != '/' && c != '\\' && c != '?' && c != '#',
        }
    }
}

/// How many characters of this part a text begins with.
pub open spec fn span(text: Seq<char>, part: Part) -> nat
    decreases text.len(),
{
    if text.len() > 0 && part.holds(text[0]) {
        1 + span(text.skip(1), part)
    } else {
        0
    }
}

/// Whether `url` reads the character. It passes over tabs and line ends.
pub open spec fn is_read(c: char) -> bool {
    c != '\t' && c != '\n' && c != '\r'
}

/// The characters of a text that `url` reads.
pub open spec fn input(text: Seq<char>) -> Seq<char> {
    text.skip(span(text, Part::Margin) as int).filter(|c: char| is_read(c))
}

/// The letter in lower case. Every other character is left as it is.
pub open spec fn lower(c: char) -> char {
    if 'A' <= c <= 'Z' {
        ((c as u32) + 0x20) as char
    } else {
        c
    }
}

/// Whether the scheme has this name, in whatever case.
pub open spec fn is_named(scheme: Seq<char>, name: Seq<char>) -> bool {
    &&& scheme.len() == name.len()
    &&& forall|k: int| 0 <= k < scheme.len() ==> lower(#[trigger] scheme[k]) == name[k]
}

/// Whether the scheme is one of those whose hosts are names in a network.
pub open spec fn is_special(scheme: Seq<char>) -> bool {
    ||| is_named(scheme, "ws"@)
    ||| is_named(scheme, "wss"@)
    ||| is_named(scheme, "http"@)
    ||| is_named(scheme, "https"@)
    ||| is_named(scheme, "ftp"@)
    ||| is_named(scheme, "gopher"@)
}

/// How many characters of an authority stand before its host: all up to the
/// last at sign.
pub open spec fn user_info(authority: Seq<char>) -> nat
    decreases authority.len(),
{
    if authority.len() == 0 || authority.last() == '@' {
        authority.len()
    } else {
        user_info(authority.drop_last())
    }
}

/// How many characters of a text stand before the first colon that is outside
/// of brackets.
pub open spec fn before_port(text: Seq<char>, bracketed: bool) -> nat
    decreases text.len(),
{
    if text.len() == 0 || text[0] == ':' && !bracketed {
        0
    } else {
        1 + before_port(text.skip(1), text[0] == '[' || bracketed && text[0] != ']')
    }
}

/// The characters of an address that `url` hands to `idna`, once it has read
/// the scheme: the host, if the scheme is special or that of a file.
pub open spec fn host_after(scheme: Seq<char>, rest: Seq<char>) -> Seq<char> {
    if is_special(scheme) {
        let found = rest.skip(span(rest, Part::Slashes) as int);
        let authority = found.take(span(found, Part::Authority) as int);
        let located = authority.skip(user_info(authority) as int);
        located.take(before_port(located, false) as int)
    } else if is_named(scheme, "file"@) && span(rest, Part::Slashes) >= 2 {
        rest.skip(2).take(span(rest.skip(2), Part::Authority) as int)
    } else {
        seq![]
    }
}

/// The host of an address, as far as `idna` comes to see it.
pub open spec fn host(text: Seq<char>) -> Seq<char> {
    let read = input(text);
    let colon = span(read, Part::Scheme) as int;
    if colon < read.len() {
        host_after(read.take(colon), read.skip(colon + 1))
    } else {
        seq![]
    }
}

/// Whether the character is ASCII, and no percent sign.
pub open spec fn is_plain(c: char) -> bool {
    (c as u32) < 0x80 && c != '%'
}

/// How many characters `idna` makes of one at most. A percent sign stands for
/// a byte, and no character makes more than six for each of its bytes.
pub open spec fn size_of_char(c: char) -> nat {
    if is_plain(c) {
        1
    } else if c == '%' {
        6
    } else if 0xf900 <= (c as u32) < 0x1_0000 {
        18
    } else {
        7
    }
}

/// Below which code point all the characters are that `idna` makes of one. A
/// hyphen may be that of a label in Punycode, which can hold any.
pub open spec fn reach_of_char(c: char) -> nat {
    if is_plain(c) && c != '-' {
        0x80
    } else if c != '-' && c != '%' && (c as u32) < 0xf900 {
        0x1_0000
    } else {
        CODE_POINTS as nat
    }
}

/// How many characters `idna` makes of a label at most.
pub open spec fn size(label: Seq<char>) -> nat
    decreases label.len(),
{
    if label.len() == 0 {
        0
    } else {
        size(label.drop_last()) + size_of_char(label.last())
    }
}

/// Below which code point all the characters are that `idna` makes of a label.
pub open spec fn reach(label: Seq<char>) -> nat
    decreases label.len(),
{
    if label.len() == 0 {
        0x80
    } else {
        let before = reach(label.drop_last());
        let last = reach_of_char(label.last());
        if before < last {
            last
        } else {
            before
        }
    }
}

/// Whether all characters of a label are plain.
pub open spec fn all_plain(label: Seq<char>) -> bool {
    forall|k: int| 0 <= k < label.len() ==> is_plain(#[trigger] label[k])
}

/// Whether the count for a label is certain to fit. A label of plain characters
/// either needs no count, or is in Punycode already, and then `idna` has
/// refused it in reading if its count does not fit. For any other the count
/// is at most the number of code points within reach, times the length.
pub open spec fn label_fits(label: Seq<char>) -> bool {
    all_plain(label) || size(label) * reach(label) <= u32::MAX
}

/// Whether the characters from the one place to the other are a label of the host.
pub open spec fn is_label(host: Seq<char>, from: int, to: int) -> bool {
    &&& 0 <= from <= to <= host.len()
    &&& from == 0 || host[from - 1] == '.'
    &&& to == host.len() || host[to] == '.'
    &&& forall|k: int| from <= k < to ==> host[k] != '.'
}

/// Whether the counts for all labels of the host are certain to fit. What
/// begins with a bracket is the number of a host, and has no labels.
pub open spec fn labels_fit(host: Seq<char>) -> bool {
    ||| host.len() > 0 && host[0] == '['
    ||| forall|from: int, to: int| #[trigger]
        is_label(host, from, to) ==> label_fits(host.subrange(from, to))
}

/// Whether the URL parser is certain to take the address, be it to accept or
/// to reject it.
pub open spec fn host_fits(text: Seq<char>) -> bool {
    text.len() <= MAX_ADDRESS && labels_fit(host(text))
}

/// A span ends where its part does.
proof fn lemma_span(text: Seq<char>, part: Part, n: int)
    requires
        0 <= n <= text.len(),
        forall|k: int| 0 <= k < n ==> part.holds(#[trigger] text[k]),
        n < text.len() ==> !part.holds(text[n]),
    ensures
        span(text, part) == n,
    decreases text.len(),
{
    if n > 0 {
        assert(part.holds(text[0]));
        assert forall|k: int| 0 <= k < n - 1 implies part.holds(#[trigger] text.skip(1)[k]) by {
            assert(text.skip(1)[k] == text[k + 1]);
        }
        lemma_span(text.skip(1), part, n - 1);
    }
}

/// A span is no longer than the text.
proof fn lemma_span_bound(text: Seq<char>, part: Part)
    ensures
        span(text, part) <= text.len(),
    decreases text.len(),
{
    if text.len() > 0 {
        lemma_span_bound(text.skip(1), part);
    }
}

/// Counts the characters of this part that a text begins with.
fn count_span(text: &[char], part: Part) -> (n: usize)
    ensures
        n == span(text@, part),
        n <= text@.len(),
{
    let mut n: usize = 0;
    while n < text.len() && part.accepts(text[n])
        invariant
            n <= text@.len(),
            forall|k: int| 0 <= k < n ==> part.holds(#[trigger] text@[k]),
        decreases text@.len() - n,
    {
        n = n + 1;
    }
    proof {
        lemma_span(text@, part, n as int);
    }
    n
}

/// Picks out the characters that `url` reads.
fn read_input(text: &str) -> (read: Vec<char>)
    ensures
        read@ == input(text@),
{
    let mut read: Vec<char> = Vec::new();
    let mut margin: bool = true;
    let ghost start = span(text@, Part::Margin) as int;
    let ghost is_kept = |c: char| is_read(c);
    proof {
        lemma_span_bound(text@, Part::Margin);
        assert(text@.skip(0) == text@);
        reveal(Seq::filter);
    }
    for c in it: text.chars()
        invariant
            it.seq() == text@,
            0 <= start <= text@.len(),
            start == span(text@, Part::Margin),
            is_kept == (|c: char| is_read(c)),
            margin ==> read@.len() == 0 && start == it.index() + span(
                text@.skip(it.index() as int),
                Part::Margin,
            ),
            !margin ==> start <= it.index() && read@ == text@.subrange(
                start,
                it.index() as int,
            ).filter(is_kept),
    {
        let ghost i = it.index() as int;
        let ghost rest = text@.skip(i);
        assert(rest[0] == c);
        assert(rest.skip(1) == text@.skip(i + 1));
        if margin && !Part::Margin.accepts(c) {
            margin = false;
            proof {
                reveal(Seq::filter);
                assert(text@.subrange(start, i).len() == 0);
            }
        }
        if !margin {
            proof {
                reveal(Seq::filter);
                assert(text@.subrange(start, i + 1).drop_last() == text@.subrange(start, i));
            }
            if c != '\t' && c != '\n' && c != '\r' {
                read.push(c);
            }
        }
    }
    proof {
        reveal(Seq::filter);
        assert(text@.skip(start) == text@.subrange(start, text@.len() as int));
    }
    read
}

/// Tells whether the scheme has this name.
fn has_name(scheme: &[char], name: &str) -> (r: bool)
    ensures
        r == is_named(scheme@, name@),
{
    if scheme.len() != name.unicode_len() {
        return false;
    }
    let mut n: usize = 0;
    while n < scheme.len()
        invariant
            scheme@.len() == name@.len(),
            n <= scheme@.len(),
            forall|k: int| 0 <= k < n ==> lower(#[trigger] scheme@[k]) == name@[k],
        decreases scheme@.len() - n,
    {
        let c: char = scheme[n];
        let small: char = if 'A' <= c && c <= 'Z' {
            ((c as u8) + 0x20) as char
        } else {
            c
        };
        assert(small == lower(scheme@[n as int]));
        if small != name.get_char(n) {
            return false;
        }
        n = n + 1;
    }
    true
}

/// Counts the characters before the host.
fn count_user_info(authority: &[char]) -> (n: usize)
    ensures
        n == user_info(authority@),
        n <= authority@.len(),
{
    let mut n: usize = authority.len();
    assert(authority@.take(n as int) == authority@);
    while n > 0 && authority[n - 1] != '@'
        invariant
            n <= authority@.len(),
            user_info(authority@) == user_info(authority@.take(n as int)),
        decreases n,
    {
        assert(authority@.take(n as int).drop_last() == authority@.take(n - 1));
        n = n - 1;
    }
    n
}

/// Counts the characters before the port.
fn count_before_port(text: &[char]) -> (n: usize)
    ensures
        n == before_port(text@, false),
        n <= text@.len(),
{
    let mut n: usize = 0;
    let mut bracketed: bool = false;
    assert(text@.skip(0) == text@);
    while n < text.len() && (text[n] != ':' || bracketed)
        invariant
            n <= text@.len(),
            before_port(text@, false) == n + before_port(text@.skip(n as int), bracketed),
        decreases text@.len() - n,
    {
        assert(text@.skip(n as int).skip(1) == text@.skip(n + 1));
        bracketed = text[n] == '[' || bracketed && text[n] != ']';
        n = n + 1;
    }
    n
}

/// Cuts out the host, once the scheme is read.
fn find_host<'a>(scheme: &[char], rest: &'a [char]) -> (host: &'a [char])
    ensures
        host@ == host_after(scheme@, rest@),
{
    let slashes: usize = count_span(rest, Part::Slashes);
    if has_name(scheme, "ws") || has_name(scheme, "wss") || has_name(scheme, "http") || has_name(
        scheme,
        "https",
    ) || has_name(scheme, "ftp") || has_name(scheme, "gopher") {
        let found = slice_subrange(rest, slashes, rest.len());
        let authority = slice_subrange(found, 0, count_span(found, Part::Authority));
        let located = slice_subrange(authority, count_user_info(authority), authority.len());
        slice_subrange(located, 0, count_before_port(located))
    } else if has_name(scheme, "file") && slashes >= 2 {
        let found = slice_subrange(rest, 2, rest.len());
        slice_subrange(found, 0, count_span(found, Part::Authority))
    } else {
        slice_subrange(rest, 0, 0)
    }
}

/// The sizes of the characters of a label bound its size, and the reach is
/// that of a code point.
proof fn lemma_bounds(label: Seq<char>)
    ensures
        size(label) <= 18 * label.len(),
        0x80 <= reach(label) <= CODE_POINTS,
    decreases label.len(),
{
    if label.len() > 0 {
        lemma_bounds(label.drop_last());
    }
}

/// Tells whether the count for a label is certain to fit.
fn fits_label(label: &[char]) -> (r: bool)
    requires
        label@.len() <= MAX_ADDRESS,
    ensures
        r == label_fits(label@),
{
    let mut n: usize = 0;
    let mut plain: bool = true;
    let mut total: u64 = 0;
    let mut top: u64 = 0x80;
    while n < label.len()
        invariant
            n <= label@.len() <= MAX_ADDRESS,
            plain <==> forall|k: int| 0 <= k < n ==> is_plain(#[trigger] label@[k]),
            total == size(label@.take(n as int)),
            top == reach(label@.take(n as int)),
            total <= 18 * n,
            top <= CODE_POINTS,
        decreases label@.len() - n,
    {
        let c: char = label[n];
        assert(label@.take(n + 1).drop_last() == label@.take(n as int));
        let (grows, reaches): (u64, u64) = if (c as u32) < 0x80 && c != '%' {
            (
                1,
                if c == '-' {
                    CODE_POINTS
                } else {
                    0x80
                },
            )
        } else {
            plain = false;
            if c == '%' {
                (6, CODE_POINTS)
            } else if (c as u32) < 0xf900 {
                (7, 0x1_0000)
            } else if (c as u32) < 0x1_0000 {
                (18, CODE_POINTS)
            } else {
                (7, CODE_POINTS)
            }
        };
        total = total + grows;
        if top < reaches {
            top = reaches;
        }
        n = n + 1;
    }
    assert(label@.take(n as int) == label@);
    assert(total * top <= 18 * 0x7fff_ffff * 0x11_0000) by (nonlinear_arith)
        requires
            total <= 18 * 0x7fff_ffff,
            top <= 0x11_0000,
    ;
    plain || total * top <= u32::MAX as u64
}

/// Tells whether the counts for all labels of the host are certain to fit.
fn fit_labels(host: &[char]) -> (r: bool)
    requires
        host@.len() <= MAX_ADDRESS,
    ensures
        r == labels_fit(host@),
{
    if host.len() > 0 && host[0] == '[' {
        return true;
    }
    let mut start: usize = 0;
    let mut n: usize = 0;
    while n < host.len()
        invariant
            start <= n <= host@.len() <= MAX_ADDRESS,
            host@.len() > 0 ==> host@[0] != '[',
            start == 0 || host@[start - 1] == '.',
            forall|k: int| start <= k < n ==> host@[k] != '.',
            forall|from: int, to: int| #[trigger]
                is_label(host@, from, to) && to < start ==> label_fits(host@.subrange(from, to)),
        decreases host@.len() - n,
    {
        if host[n] == '.' {
            assert(is_label(host@, start as int, n as int));
            if !fits_label(slice_subrange(host, start, n)) {
                return false;
            }
            assert forall|from: int, to: int| #[trigger]
                is_label(host@, from, to) && to < n + 1 implies label_fits(
                host@.subrange(from, to),
            ) by {
                if to >= start {
                    assert(to == n);
                    assert(from == start);
                }
            }
            start = n + 1;
        }
        n = n + 1;
    }
    assert(is_label(host@, start as int, n as int));
    let r = fits_label(slice_subrange(host, start, n));
    assert forall|from: int, to: int| #[trigger] is_label(host@, from, to) && r implies label_fits(
        host@.subrange(from, to),
    ) by {
        if to >= start {
            assert(to == n);
            assert(from == start);
        }
    }
    r
}

/// Tells whether the URL parser is certain to take the address.
pub(crate) fn fits(text: &str) -> (r: bool)
    ensures
        r == host_fits(text@),
{
    if text.unicode_len() > MAX_ADDRESS {
        return false;
    }
    proof {
        lemma_host(text@);
    }
    let read = read_input(text);
    let all = read.as_slice();
    let colon: usize = count_span(all, Part::Scheme);
    if colon < all.len() {
        let scheme = slice_subrange(all, 0, colon);
        let rest = slice_subrange(all, colon + 1, all.len());
        fit_labels(find_host(scheme, rest))
    } else {
        fit_labels(slice_subrange(all, 0, 0))
    }
}

/// What is read of a text are characters of it, and no more.
proof fn lemma_filter(text: Seq<char>)
    ensures
        text.filter(|c: char| is_read(c)).len() <= text.len(),
        all_plain(text) ==> all_plain(text.filter(|c: char| is_read(c))),
    decreases text.len(),
{
    reveal(Seq::filter);
    if text.len() > 0 {
        lemma_filter(text.drop_last());
    }
}

/// Neither the user information nor the host is longer than where it stands.
proof fn lemma_counts(text: Seq<char>, bracketed: bool)
    ensures
        user_info(text) <= text.len(),
        before_port(text, bracketed) <= text.len(),
    decreases text.len(),
{
    if text.len() > 0 {
        lemma_counts(text.drop_last(), bracketed);
        lemma_counts(text.skip(1), text[0] == '[' || bracketed && text[0] != ']');
    }
}

/// The host of an address is made of characters of it, and no more.
proof fn lemma_host(text: Seq<char>)
    ensures
        host(text).len() <= text.len(),
        all_plain(text) ==> all_plain(host(text)),
{
    lemma_span_bound(text, Part::Margin);
    lemma_filter(text.skip(span(text, Part::Margin) as int));
    let read = input(text);
    lemma_span_bound(read, Part::Scheme);
    let colon = span(read, Part::Scheme) as int;
    if colon < read.len() {
        let rest = read.skip(colon + 1);
        lemma_span_bound(rest, Part::Slashes);
        let found = rest.skip(span(rest, Part::Slashes) as int);
        lemma_span_bound(found, Part::Authority);
        let authority = found.take(span(found, Part::Authority) as int);
        lemma_counts(authority, false);
        let located = authority.skip(user_info(authority) as int);
        lemma_counts(located, false);
        if span(rest, Part::Slashes) >= 2 {
            lemma_span_bound(rest.skip(2), Part::Authority);
        }
    }
}

/// An address of at most 214 characters fits, whatever they are.
pub proof fn law_short_addresses_fit(text: Seq<char>)
    requires
        text.len() <= 214,
    ensures
        host_fits(text),
{
    lemma_host(text);
    let host = host(text);
    assert forall|from: int, to: int| #[trigger] is_label(host, from, to) implies label_fits(
        host.subrange(from, to),
    ) by {
        let label = host.subrange(from, to);
        lemma_bounds(label);
        assert(size(label) * reach(label) <= 18 * 214 * 0x11_0000) by (nonlinear_arith)
            requires
                size(label) <= 18 * 214,
                reach(label) <= 0x11_0000,
        ;
    }
}

/// An address of plain characters fits, however long its labels are.
pub proof fn law_plain_addresses_fit(text: Seq<char>)
    requires
        text.len() <= MAX_ADDRESS,
        all_plain(text),
    ensures
        host_fits(text),
{
    lemma_host(text);
    let host = host(text);
    assert forall|from: int, to: int| #[trigger] is_label(host, from, to) implies label_fits(
        host.subrange(from, to),
    ) by {
        assert(all_plain(host.subrange(from, to)));
    }
}

/// The user information ends at an at sign after which there is none.
proof fn lemma_user_info(user: Seq<char>, rest: Seq<char>)
    requires
        forall|k: int| 0 <= k < rest.len() ==> rest[k] != '@',
    ensures
        user_info(user.push('@') + rest) == user.len() + 1,
    decreases rest.len(),
{
    let all = user.push('@') + rest;
    if rest.len() == 0 {
        assert(all == user.push('@'));
    } else {
        assert(all.drop_last() == user.push('@') + rest.drop_last());
        lemma_user_info(user, rest.drop_last());
    }
}

/// Outside of brackets the port begins with the first colon.
proof fn lemma_before_port(name: Seq<char>, port: Seq<char>)
    requires
        forall|k: int| 0 <= k < name.len() ==> name[k] != ':' && name[k] != '[',
    ensures
        before_port(name.push(':') + port, false) == name.len(),
    decreases name.len(),
{
    let all = name.push(':') + port;
    if name.len() > 0 {
        assert(all[0] == name[0]);
        assert(all.skip(1) == name.skip(1).push(':') + port);
        lemma_before_port(name.skip(1), port);
    }
}

/// A text all of which is read is its own input.
proof fn lemma_all_read(text: Seq<char>)
    requires
        forall|k: int| 0 <= k < text.len() ==> is_read(#[trigger] text[k]),
    ensures
        text.filter(|c: char| is_read(c)) == text,
    decreases text.len(),
{
    reveal(Seq::filter);
    if text.len() > 0 {
        lemma_all_read(text.drop_last());
        assert(text.drop_last().push(text.last()) == text);
    }
}

/// Reading begins with the first character, if that is read.
proof fn lemma_first_read(text: Seq<char>)
    requires
        text.len() > 0,
        is_read(text[0]),
    ensures
        text.filter(|c: char| is_read(c)).len() > 0,
        text.filter(|c: char| is_read(c))[0] == text[0],
    decreases text.len(),
{
    reveal(Seq::filter);
    if text.len() > 1 {
        assert(text.drop_last()[0] == text[0]);
        lemma_first_read(text.drop_last());
    } else {
        assert(text.drop_last().filter(|c: char| is_read(c)).len() == 0);
    }
}

/// Whether the character ends an authority or is passed over in reading.
pub open spec fn delimits(c: char) -> bool {
    ||| c == '/'
    ||| c == '\\'
    ||| c == '?'
    ||| c == '#'
    ||| c == '\t'
    ||| c == '\n'
    ||| c == '\r'
}

/// What follows a special scheme has the authority up to where it ends.
proof fn lemma_host_of_authority(
    scheme: Seq<char>,
    user: Seq<char>,
    name: Seq<char>,
    port: Seq<char>,
    beyond: Seq<char>,
)
    requires
        is_special(scheme),
        forall|k: int| 0 <= k < user.len() ==> !delimits(#[trigger] user[k]),
        forall|k: int| 0 <= k < name.len() ==> !delimits(#[trigger] name[k]),
        forall|k: int| 0 <= k < name.len() ==> name[k] != '@' && name[k] != ':' && name[k] != '[',
        forall|k: int| 0 <= k < port.len() ==> !delimits(#[trigger] port[k]),
        forall|k: int| 0 <= k < port.len() ==> port[k] != '@',
        beyond.len() > 0 ==> !Part::Authority.holds(beyond[0]),
    ensures
        host_after(
            scheme,
            seq!['/', '/'] + (user.push('@') + (name.push(':') + port)) + beyond,
        ) == name,
{
    let located = name.push(':') + port;
    let authority = user.push('@') + located;
    let rest = seq!['/', '/'] + authority + beyond;
    assert forall|k: int| 0 <= k < located.len() implies !delimits(#[trigger] located[k])
        && located[k] != '@' by {
        if k < name.len() {
            assert(located[k] == name[k]);
        } else if k > name.len() {
            assert(located[k] == port[k - name.len() - 1]);
        }
    }
    assert forall|k: int| 0 <= k < authority.len() implies !delimits(#[trigger] authority[k]) by {
        if k < user.len() {
            assert(authority[k] == user[k]);
        } else if k > user.len() {
            assert(authority[k] == located[k - user.len() - 1]);
        }
    }
    assert(rest[2] == authority[0]);
    lemma_span(rest, Part::Slashes, 2);
    let found = rest.skip(2);
    assert(found == authority + beyond);
    assert forall|k: int| 0 <= k < authority.len() implies Part::Authority.holds(
        #[trigger] found[k],
    ) by {
        assert(found[k] == authority[k]);
    }
    lemma_span(found, Part::Authority, authority.len() as int);
    assert(found.take(authority.len() as int) == authority);
    lemma_user_info(user, located);
    assert(authority.skip(user.len() as int + 1) == located);
    lemma_before_port(name, port);
    assert(located.take(name.len() as int) == name);
}

/// All characters up to the end of such an authority are read.
proof fn lemma_front_is_read(user: Seq<char>, name: Seq<char>, port: Seq<char>)
    requires
        forall|k: int| 0 <= k < user.len() ==> !delimits(#[trigger] user[k]),
        forall|k: int| 0 <= k < name.len() ==> !delimits(#[trigger] name[k]),
        forall|k: int| 0 <= k < port.len() ==> !delimits(#[trigger] port[k]),
    ensures
        ({
            let front = seq!['w', 's', ':', '/', '/'] + (user.push('@') + (name.push(':') + port));
            forall|k: int| 0 <= k < front.len() ==> is_read(#[trigger] front[k])
        }),
{
    let front = seq!['w', 's', ':', '/', '/'] + (user.push('@') + (name.push(':') + port));
    assert forall|k: int| 0 <= k < front.len() implies is_read(#[trigger] front[k]) by {
        if 5 <= k < 5 + user.len() {
            assert(front[k] == user[k - 5]);
        } else if 5 + user.len() < k < 6 + user.len() + name.len() {
            assert(front[k] == name[k - 6 - user.len()]);
        } else if k > 6 + user.len() + name.len() {
            assert(front[k] == port[k - 7 - user.len() - name.len()]);
        }
    }
}

/// Of a text whose front is all read, all of that is read, and of what follows
/// the first character if it ends an authority.
proof fn lemma_input(front: Seq<char>, tail: Seq<char>)
    requires
        front.len() > 0,
        (front[0] as u32) > 0x20,
        forall|k: int| 0 <= k < front.len() ==> is_read(#[trigger] front[k]),
        tail.len() > 0 ==> tail[0] == '/' || tail[0] == '?' || tail[0] == '#',
    ensures
        input(front + tail) == front + tail.filter(|c: char| is_read(c)),
        tail.filter(|c: char| is_read(c)).len() > 0 ==> !Part::Authority.holds(
            tail.filter(|c: char| is_read(c))[0],
        ),
{
    let text = front + tail;
    lemma_all_read(front);
    Seq::filter_distributes_over_add(front, tail, |c: char| is_read(c));
    if tail.len() > 0 {
        lemma_first_read(tail);
    } else {
        lemma_filter(tail);
    }
    assert(text[0] == front[0]);
    lemma_span(text, Part::Margin, 0);
    assert(text.skip(0) == text);
}

/// The scheme of a WebSocket address, and what follows it.
proof fn lemma_scheme(authority: Seq<char>, beyond: Seq<char>)
    ensures
        ({
            let read = seq!['w', 's', ':', '/', '/'] + authority + beyond;
            &&& span(read, Part::Scheme) == 2
            &&& read.take(2) == seq!['w', 's']
            &&& read.skip(3) == seq!['/', '/'] + authority + beyond
        }),
        is_special(seq!['w', 's']),
{
    let read = seq!['w', 's', ':', '/', '/'] + authority + beyond;
    lemma_span(read, Part::Scheme, 2);
    assert(read.take(2) =~= seq!['w', 's']);
    assert(read.skip(3) =~= seq!['/', '/'] + authority + beyond);
    reveal_strlit("ws");
    assert(is_named(seq!['w', 's'], "ws"@));
}

/// In a WebSocket address the host is what stands between the last at sign and
/// the port, whoever the user is, whatever the port and whatever follows.
pub proof fn law_host_stands_between_user_and_port(
    user: Seq<char>,
    name: Seq<char>,
    port: Seq<char>,
    tail: Seq<char>,
)
    requires
        forall|k: int| 0 <= k < user.len() ==> !delimits(#[trigger] user[k]),
        forall|k: int| 0 <= k < name.len() ==> !delimits(#[trigger] name[k]),
        forall|k: int| 0 <= k < name.len() ==> name[k] != '@' && name[k] != ':' && name[k] != '[',
        forall|k: int| 0 <= k < port.len() ==> !delimits(#[trigger] port[k]),
        forall|k: int| 0 <= k < port.len() ==> port[k] != '@',
        tail.len() > 0 ==> tail[0] == '/' || tail[0] == '?' || tail[0] == '#',
    ensures
        host(
            seq!['w', 's', ':', '/', '/'] + (user.push('@') + (name.push(':') + port)) + tail,
        ) == name,
{
    let authority = user.push('@') + (name.push(':') + port);
    let front = seq!['w', 's', ':', '/', '/'] + authority;
    let beyond = tail.filter(|c: char| is_read(c));
    lemma_front_is_read(user, name, port);
    lemma_input(front, tail);
    lemma_scheme(authority, beyond);
    assert(front + beyond == seq!['w', 's', ':', '/', '/'] + authority + beyond);
    lemma_host_of_authority(seq!['w', 's'], user, name, port, beyond);
}

/// Whether an address fits depends on nothing but its length and its host. If
/// the host is a single label, it depends on that.
pub proof fn law_fit_is_that_of_the_host(text: Seq<char>)
    requires
        forall|k: int| 0 <= k < host(text).len() ==> host(text)[k] != '.' && host(text)[k] != '[',
    ensures
        host_fits(text) <==> text.len() < 0x8000_0000 && label_fits(host(text)),
{
    let host = host(text);
    assert(is_label(host, 0, host.len() as int));
    assert(host.subrange(0, host.len() as int) == host);
    assert forall|from: int, to: int| #[trigger] is_label(host, from, to) implies from == 0 && to
        == host.len() by {
        if from > 0 {
            assert(host[from - 1] == '.');
        }
    }
}

/// The reach of a character is beyond its own code point.
proof fn lemma_reach_of_char(c: char)
    ensures
        reach_of_char(c) > c as u32,
{
}

/// A size is at least the length, and a reach is beyond every code point.
proof fn lemma_least(label: Seq<char>, k: int)
    requires
        forall|i: int| 0 <= i < label.len() ==> label[i] != '%',
    ensures
        size(label) >= label.len(),
        0 <= k < label.len() ==> reach(label) > label[k] as u32,
    decreases label.len(),
{
    if label.len() > 0 {
        assert(forall|i: int| 0 <= i < label.len() - 1 ==> label.drop_last()[i] == label[i]);
        lemma_least(label.drop_last(), k);
        lemma_reach_of_char(label.last());
    }
}

/// A label does not fit if it has so many characters, and one among them with
/// so high a code point that is not ASCII, that the product of both is beyond
/// 32 bits. So the count for a label that fits is no larger.
pub proof fn law_labels_beyond_the_count_do_not_fit(label: Seq<char>, k: int)
    requires
        forall|i: int| 0 <= i < label.len() ==> label[i] != '%',
        0 <= k < label.len(),
        (label[k] as u32) >= 0x80,
        (label[k] as u32) * label.len() > u32::MAX,
    ensures
        !label_fits(label),
{
    lemma_least(label, k);
    assert(!is_plain(label[k]));
    let point = label[k] as u32;
    assert(size(label) * reach(label) >= label.len() * point) by (nonlinear_arith)
        requires
            size(label) >= label.len(),
            reach(label) >= point,
    ;
    assert(label.len() * point == point * label.len()) by (nonlinear_arith);
}

/// Characters below U+F900 make at most seven each, within 16 bits.
proof fn lemma_letters(label: Seq<char>)
    requires
        forall|i: int|
            0 <= i < label.len() ==> {
                &&& (#[trigger] label[i] as u32) < 0xf900
                &&& label[i] != '%'
                &&& label[i] != '-'
            },
    ensures
        size(label) <= 7 * label.len(),
        reach(label) <= 0x1_0000,
    decreases label.len(),
{
    if label.len() > 0 {
        assert(forall|i: int|
            0 <= i < label.len() - 1 ==> #[trigger] label.drop_last()[i] == label[i]);
        lemma_letters(label.drop_last());
    }
}

/// A label of up to 9362 letters of whatever script fits, as far as they are
/// below U+F900.
pub proof fn law_labels_of_letters_fit(label: Seq<char>)
    requires
        label.len() <= 9362,
        forall|i: int|
            0 <= i < label.len() ==> {
                &&& (#[trigger] label[i] as u32) < 0xf900
                &&& label[i] != '%'
                &&& label[i] != '-'
            },
    ensures
        label_fits(label),
{
    lemma_letters(label);
    assert(size(label) * reach(label) <= 7 * 9362 * 0x1_0000) by (nonlinear_arith)
        requires
            size(label) <= 7 * 9362,
            reach(label) <= 0x1_0000,
    ;
}

} // verus!
