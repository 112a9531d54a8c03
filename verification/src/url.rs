//! File names out of addresses.

use crate::text;
use vstd::prelude::*;

verus! {

/// The characters that end the path of an address.
pub open spec fn ends_path(c: char) -> bool {
    c == '?' || c == '#'
}

/// What stands before the first character that ends the path.
pub open spec fn path_of(url: Seq<char>) -> Seq<char>
    decreases url.len(),
{
    if url.len() == 0 || ends_path(url.first()) {
        Seq::empty()
    } else {
        seq![url.first()] + path_of(url.drop_first())
    }
}

/// What stands behind the last slash.
pub open spec fn last_segment(path: Seq<char>) -> Seq<char>
    decreases path.len(),
{
    if path.len() == 0 || path.last() == '/' {
        Seq::empty()
    } else {
        last_segment(path.drop_last()).push(path.last())
    }
}

/// The last segment of the path of an address, slashes at its end left out.
pub open spec fn name_in(url: Seq<char>) -> Seq<char> {
    last_segment(text::trim_end_by(path_of(url), |c: char| c == '/'))
}

proof fn path_is_prefix(url: Seq<char>, n: int)
    requires
        0 <= n <= url.len(),
        forall|i: int| 0 <= i < n ==> !ends_path(#[trigger] url[i]),
        n == url.len() || ends_path(url[n]),
    ensures
        path_of(url) == url.take(n),
    decreases url.len(),
{
    if n > 0 {
        let rest = url.drop_first();
        assert forall|i: int| 0 <= i < n - 1 implies !ends_path(#[trigger] rest[i]) by {
            assert(!ends_path(url[i + 1]));
        }
        assert(!ends_path(url[0]));
        path_is_prefix(rest, n - 1);
        assert(seq![url.first()] + rest.take(n - 1) == url.take(n));
    } else {
        assert(url.take(0) == Seq::<char>::empty());
    }
}

/// The file name that an address ends with, where it ends with one.
pub fn file_name_from_url(url: &str) -> (name: Option<String>)
    ensures
        name is Some <==> name_in(url@).len() > 0,
        name is Some ==> name->0@ == name_in(url@),
{
    let chars: Vec<char> = text::chars_of(url);
    let ghost slash = |c: char| c == '/';
    let mut end: usize = 0;
    while end < chars.len() && chars[end] != '?' && chars[end] != '#'
        invariant
            end <= chars@.len(),
            forall|i: int| 0 <= i < end ==> !ends_path(#[trigger] chars@[i]),
        decreases chars.len() - end,
    {
        end = end + 1;
    }
    proof {
        path_is_prefix(chars@, end as int);
    }
    while end > 0 && chars[end - 1] == '/'
        invariant
            end <= chars@.len(),
            slash == (|c: char| c == '/'),
            text::trim_end_by(path_of(chars@), slash) == text::trim_end_by(
                chars@.take(end as int),
                slash,
            ),
        decreases end,
    {
        assert(chars@.take(end as int).drop_last() == chars@.take(end - 1));
        end = end - 1;
    }
    let ghost path = chars@.take(end as int);
    assert(text::trim_end_by(path_of(chars@), slash) == path);
    let mut start: usize = end;
    assert(path.take(start as int) == path);
    assert(chars@.subrange(start as int, end as int) == Seq::<char>::empty());
    assert(last_segment(path) == last_segment(path) + Seq::<char>::empty());
    while start > 0 && chars[start - 1] != '/'
        invariant
            start <= end <= chars@.len(),
            path == chars@.take(end as int),
            last_segment(path) == last_segment(path.take(start as int)) + chars@.subrange(
                start as int,
                end as int,
            ),
        decreases start,
    {
        let ghost shorter = path.take(start - 1);
        assert(path.take(start as int).drop_last() == shorter);
        assert(last_segment(path.take(start as int)) == last_segment(shorter).push(
            chars@[start - 1],
        ));
        assert(last_segment(shorter).push(chars@[start - 1]) + chars@.subrange(
            start as int,
            end as int,
        ) == last_segment(shorter) + chars@.subrange(start - 1, end as int));
        start = start - 1;
    }
    assert(last_segment(path.take(start as int)) == Seq::<char>::empty());
    assert(last_segment(path) == chars@.subrange(start as int, end as int));
    if start == end {
        None
    } else {
        Some(text::string_of(&chars, start, end))
    }
}

proof fn path_has_no_end(url: Seq<char>)
    ensures
        forall|i: int| 0 <= i < path_of(url).len() ==> !ends_path(#[trigger] path_of(url)[i]),
    decreases url.len(),
{
    if url.len() > 0 && !ends_path(url.first()) {
        let rest = url.drop_first();
        path_has_no_end(rest);
        assert forall|i: int| 0 <= i < path_of(url).len() implies !ends_path(
            #[trigger] path_of(url)[i],
        ) by {
            if i > 0 {
                assert(path_of(url)[i] == path_of(rest)[i - 1]);
            }
        }
    }
}

proof fn trimmed_is_prefix(s: Seq<char>, drop: spec_fn(char) -> bool)
    ensures
        text::trim_end_by(s, drop).len() <= s.len(),
        text::trim_end_by(s, drop) == s.take(text::trim_end_by(s, drop).len() as int),
    decreases s.len(),
{
    if s.len() > 0 && drop(s.last()) {
        trimmed_is_prefix(s.drop_last(), drop);
        let t = text::trim_end_by(s, drop);
        assert(s.drop_last().take(t.len() as int) == s.take(t.len() as int));
    } else {
        assert(s.take(s.len() as int) == s);
    }
}

proof fn segment_is_suffix(path: Seq<char>)
    ensures
        last_segment(path).len() <= path.len(),
        last_segment(path) == path.skip(path.len() - last_segment(path).len()),
        forall|i: int| 0 <= i < last_segment(path).len() ==> #[trigger] last_segment(path)[i] != '/',
    decreases path.len(),
{
    if path.len() == 0 || path.last() == '/' {
        assert(path.skip(path.len() as int) == Seq::<char>::empty());
    } else {
        let shorter = path.drop_last();
        segment_is_suffix(shorter);
        let k = last_segment(shorter).len();
        assert(shorter.skip(shorter.len() - k).push(path.last()) == path.skip(
            path.len() - (k + 1),
        ));
    }
}

/// A file name out of an address holds no slash, question mark or number sign.
pub proof fn a_file_name_is_one_segment(url: Seq<char>)
    ensures
        forall|i: int|
            0 <= i < name_in(url).len() ==> #[trigger] name_in(url)[i] != '/' && name_in(url)[i]
                != '?' && name_in(url)[i] != '#',
{
    let slash = |c: char| c == '/';
    let path = path_of(url);
    let trimmed = text::trim_end_by(path, slash);
    path_has_no_end(url);
    trimmed_is_prefix(path, slash);
    segment_is_suffix(trimmed);
    assert forall|i: int| 0 <= i < name_in(url).len() implies #[trigger] name_in(url)[i] != '/'
        && !ends_path(name_in(url)[i]) by {
        let j = trimmed.len() - name_in(url).len() + i;
        assert(name_in(url)[i] == trimmed[j]);
        assert(trimmed[j] == path[j]);
    }
}

proof fn path_ends_at_the_first_end(url: Seq<char>, end: char, rest: Seq<char>)
    requires
        ends_path(end),
    ensures
        path_of(url.push(end) + rest) == path_of(url),
    decreases url.len(),
{
    let whole = url.push(end) + rest;
    if url.len() == 0 {
        assert(whole.first() == end);
    } else {
        assert(whole.first() == url.first());
        if !ends_path(url.first()) {
            path_ends_at_the_first_end(url.drop_first(), end, rest);
            assert(whole.drop_first() == url.drop_first().push(end) + rest);
        }
    }
}

/// What follows the path of an address does not matter for the file name.
pub proof fn a_query_does_not_matter(url: Seq<char>, end: char, rest: Seq<char>)
    requires
        end == '?' || end == '#',
    ensures
        name_in(url.push(end) + rest) == name_in(url),
{
    path_ends_at_the_first_end(url, end, rest);
}

proof fn a_slash_is_added_to_the_path_or_lost(url: Seq<char>)
    ensures
        path_of(url.push('/')) == path_of(url) || path_of(url.push('/')) == path_of(url).push('/'),
    decreases url.len(),
{
    let longer = url.push('/');
    if url.len() == 0 {
        assert(longer.drop_first() == Seq::<char>::empty());
        assert(path_of(longer.drop_first()) == Seq::<char>::empty());
        assert(path_of(longer) == Seq::<char>::empty().push('/'));
    } else if !ends_path(url.first()) {
        a_slash_is_added_to_the_path_or_lost(url.drop_first());
        assert(longer.first() == url.first());
        assert(longer.drop_first() == url.drop_first().push('/'));
        let shorter = path_of(url.drop_first());
        assert(seq![url.first()] + shorter.push('/') == (seq![url.first()] + shorter).push('/'));
    } else {
        assert(longer.first() == url.first());
    }
}

/// Slashes at the end of an address do not matter for the file name.
pub proof fn a_trailing_slash_does_not_matter(url: Seq<char>)
    ensures
        name_in(url.push('/')) == name_in(url),
{
    a_slash_is_added_to_the_path_or_lost(url);
    assert(path_of(url).push('/').drop_last() == path_of(url));
}

proof fn a_segment_is_its_own_last_segment(s: Seq<char>)
    requires
        forall|i: int| 0 <= i < s.len() ==> #[trigger] s[i] != '/',
    ensures
        last_segment(s) == s,
    decreases s.len(),
{
    if s.len() > 0 {
        let shorter = s.drop_last();
        assert forall|i: int| 0 <= i < shorter.len() implies #[trigger] shorter[i] != '/' by {
            assert(s[i] != '/');
        }
        a_segment_is_its_own_last_segment(shorter);
        assert(s[s.len() - 1] != '/');
        assert(shorter.push(s.last()) == s);
    }
}

/// A file name out of an address is its own file name.
pub proof fn a_file_name_is_its_own_name(url: Seq<char>)
    ensures
        name_in(name_in(url)) == name_in(url),
{
    let name = name_in(url);
    a_file_name_is_one_segment(url);
    assert forall|i: int| 0 <= i < name.len() implies !ends_path(#[trigger] name[i]) by {}
    assert forall|i: int| 0 <= i < name.len() implies #[trigger] name[i] != '/' by {}
    path_is_prefix(name, name.len() as int);
    assert(name.take(name.len() as int) == name);
    if name.len() > 0 {
        assert(name[name.len() - 1] != '/');
    }
    a_segment_is_its_own_last_segment(name);
}

proof fn trailing_slashes_are_dropped(s: Seq<char>, slashes: Seq<char>)
    requires
        forall|i: int| 0 <= i < slashes.len() ==> #[trigger] slashes[i] == '/',
    ensures
        text::trim_end_by(s + slashes, |c: char| c == '/') == text::trim_end_by(
            s,
            |c: char| c == '/',
        ),
    decreases slashes.len(),
{
    if slashes.len() > 0 {
        let fewer = slashes.drop_last();
        assert forall|i: int| 0 <= i < fewer.len() implies #[trigger] fewer[i] == '/' by {
            assert(slashes[i] == '/');
        }
        trailing_slashes_are_dropped(s, fewer);
        assert(slashes[slashes.len() - 1] == '/');
        assert((s + slashes).drop_last() == s + fewer);
    } else {
        assert(s + slashes == s);
    }
}

proof fn a_segment_behind_a_slash_is_the_last_one(prefix: Seq<char>, segment: Seq<char>)
    requires
        prefix.len() == 0 || prefix.last() == '/',
        forall|i: int| 0 <= i < segment.len() ==> #[trigger] segment[i] != '/',
    ensures
        last_segment(prefix + segment) == segment,
    decreases segment.len(),
{
    if segment.len() > 0 {
        let shorter = segment.drop_last();
        assert forall|i: int| 0 <= i < shorter.len() implies #[trigger] shorter[i] != '/' by {
            assert(segment[i] != '/');
        }
        a_segment_behind_a_slash_is_the_last_one(prefix, shorter);
        assert(segment[segment.len() - 1] != '/');
        assert((prefix + segment).drop_last() == prefix + shorter);
        assert(shorter.push(segment.last()) == segment);
    } else {
        assert(prefix + segment == prefix);
    }
}

/// The file name of an address is the last segment of its path that is not empty, whatever it is made
/// of: what stands between the last slash before it and the slashes, the question mark or the number
/// sign that follow it.
pub proof fn the_name_is_the_last_segment(
    prefix: Seq<char>,
    segment: Seq<char>,
    slashes: Seq<char>,
    rest: Seq<char>,
)
    requires
        forall|i: int| 0 <= i < prefix.len() ==> #[trigger] prefix[i] != '?' && prefix[i] != '#',
        prefix.len() == 0 || prefix.last() == '/',
        segment.len() > 0,
        forall|i: int|
            0 <= i < segment.len() ==> #[trigger] segment[i] != '/' && segment[i] != '?'
                && segment[i] != '#',
        forall|i: int| 0 <= i < slashes.len() ==> #[trigger] slashes[i] == '/',
        rest.len() == 0 || rest.first() == '?' || rest.first() == '#',
    ensures
        name_in(prefix + segment + slashes + rest) == segment,
{
    let url = prefix + segment + slashes + rest;
    let path = prefix + segment + slashes;
    let n = path.len() as int;
    assert forall|i: int| 0 <= i < n implies !ends_path(#[trigger] url[i]) by {
        if i < prefix.len() {
            assert(url[i] == prefix[i]);
        } else if i < prefix.len() + segment.len() {
            assert(url[i] == segment[i - prefix.len()]);
        } else {
            assert(url[i] == slashes[i - prefix.len() - segment.len()]);
        }
    }
    if rest.len() > 0 {
        assert(url[n] == rest.first());
    }
    path_is_prefix(url, n);
    assert(url.take(n) == path);
    trailing_slashes_are_dropped(prefix + segment, slashes);
    assert((prefix + segment).last() == segment[segment.len() - 1]);
    a_segment_behind_a_slash_is_the_last_one(prefix, segment);
}

/// An address that ends with a segment, without a slash behind it and without a query or a fragment,
/// has that segment as its file name, whatever it is made of.
pub proof fn a_segment_at_the_end_is_the_name(prefix: Seq<char>, segment: Seq<char>)
    requires
        forall|i: int| 0 <= i < prefix.len() ==> #[trigger] prefix[i] != '?' && prefix[i] != '#',
        prefix.len() == 0 || prefix.last() == '/',
        segment.len() > 0,
        forall|i: int|
            0 <= i < segment.len() ==> #[trigger] segment[i] != '/' && segment[i] != '?'
                && segment[i] != '#',
    ensures
        name_in(prefix + segment) == segment,
{
    the_name_is_the_last_segment(prefix, segment, Seq::empty(), Seq::empty());
    assert(prefix + segment + Seq::<char>::empty() + Seq::<char>::empty() == prefix + segment);
}

/// An address whose path is made of slashes alone, or empty, has no file name.
pub proof fn slashes_alone_are_no_name(slashes: Seq<char>, rest: Seq<char>)
    requires
        forall|i: int| 0 <= i < slashes.len() ==> #[trigger] slashes[i] == '/',
        rest.len() == 0 || rest.first() == '?' || rest.first() == '#',
    ensures
        name_in(slashes + rest) == Seq::<char>::empty(),
{
    let url = slashes + rest;
    let n = slashes.len() as int;
    assert forall|i: int| 0 <= i < n implies !ends_path(#[trigger] url[i]) by {
        assert(url[i] == slashes[i]);
    }
    if rest.len() > 0 {
        assert(url[n] == rest.first());
    }
    path_is_prefix(url, n);
    assert(url.take(n) == slashes);
    trailing_slashes_are_dropped(Seq::empty(), slashes);
    assert(Seq::<char>::empty() + slashes == slashes);
}

} // verus!
