//! The header set of an outbound request: an ordered list of name and
//! value pairs in which names are matched without regard to ASCII case.
use vstd::prelude::*;
use crate::text::same_ignoring_case;

verus! {

/// One header line.
#[derive(Debug)]
pub struct Header {
    pub name: String,
    pub value: String,
}

/// The mathematical value of a [`Header`].
pub struct HeaderView {
    pub name: Seq<char>,
    pub value: Seq<char>,
}

impl View for Header {
    type V = HeaderView;

    open spec fn view(&self) -> HeaderView {
        HeaderView { name: self.name@, value: self.value@ }
    }
}

/// The values of a list of headers, in order.
pub open spec fn header_views(headers: Seq<Header>) -> Seq<HeaderView> {
    Seq::new(headers.len(), |i: int| headers[i]@)
}

/// The value of the first header called `name`, if there is one.
pub open spec fn header_value(headers: Seq<HeaderView>, name: Seq<char>) -> Option<Seq<char>>
    decreases headers.len(),
{
    if headers.len() == 0 {
        None
    } else {
        match header_value(headers.drop_last(), name) {
            Some(value) => Some(value),
            None => if same_ignoring_case(headers.last().name, name) {
                Some(headers.last().value)
            } else {
                None
            },
        }
    }
}

/// The headers that are not called `name`, in their order.
pub open spec fn without_header(headers: Seq<HeaderView>, name: Seq<char>) -> Seq<HeaderView>
    decreases headers.len(),
{
    if headers.len() == 0 {
        Seq::empty()
    } else if same_ignoring_case(headers.last().name, name) {
        without_header(headers.drop_last(), name)
    } else {
        without_header(headers.drop_last(), name).push(headers.last())
    }
}

/// The header set after `name` was set to `value`: every earlier header of
/// that name is gone and the new one stands last.
pub open spec fn with_header(headers: Seq<HeaderView>, name: Seq<char>, value: Seq<char>) -> Seq<
    HeaderView,
> {
    without_header(headers, name).push(HeaderView { name, value })
}

/// Looks up the first header called `name`.
pub fn find_header<'a>(headers: &'a Vec<Header>, name: &str) -> (found: Option<&'a str>)
    ensures
        match found {
            Some(value) => header_value(header_views(headers@), name@) == Some(value@),
            None => header_value(header_views(headers@), name@) is None,
        },
{
    let ghost all = header_views(headers@);
    let mut found: Option<&'a str> = None;
    let mut i: usize = 0;
    while i < headers.len()
        invariant
            i <= headers.len(),
            all == header_views(headers@),
            match found {
                Some(value) => header_value(all.take(i as int), name@) == Some(value@),
                None => header_value(all.take(i as int), name@) is None,
            },
        decreases headers.len() - i,
    {
        assert(all.take(i + 1).drop_last() =~= all.take(i as int));
        if found.is_none() && headers[i].name.as_str().eq_ignore_ascii_case(name) {
            found = Some(headers[i].value.as_str());
        }
        i = i + 1;
    }
    assert(all.take(i as int) =~= all);
    found
}

/// A copy of a list of headers.
pub fn copy_headers(headers: &Vec<Header>) -> (same: Vec<Header>)
    ensures
        header_views(same@) == header_views(headers@),
{
    let mut same: Vec<Header> = Vec::new();
    let mut i: usize = 0;
    while i < headers.len()
        invariant
            i <= headers.len(),
            header_views(same@) == header_views(headers@).take(i as int),
        decreases headers.len() - i,
    {
        let ghost before = header_views(same@);
        same.push(Header { name: headers[i].name.clone(), value: headers[i].value.clone() });
        assert(header_views(same@) =~= before.push(headers@[i as int]@));
        assert(header_views(headers@).take(i + 1) =~= before.push(headers@[i as int]@));
        i = i + 1;
    }
    assert(header_views(headers@).take(i as int) =~= header_views(headers@));
    same
}

/// Sets `name` to `value`, replacing every header of that name.
pub fn set_header(headers: &mut Vec<Header>, name: &str, value: String)
    ensures
        header_views(final(headers)@) == with_header(header_views(old(headers)@), name@, value@),
{
    let ghost all = header_views(headers@);
    let mut kept: Vec<Header> = Vec::new();
    let mut i: usize = 0;
    while i < headers.len()
        invariant
            i <= headers.len(),
            all == header_views(headers@),
            header_views(kept@) == without_header(all.take(i as int), name@),
        decreases headers.len() - i,
    {
        assert(all.take(i + 1).drop_last() =~= all.take(i as int));
        if !headers[i].name.as_str().eq_ignore_ascii_case(name) {
            let ghost before = header_views(kept@);
            kept.push(Header { name: headers[i].name.clone(), value: headers[i].value.clone() });
            assert(header_views(kept@) =~= before.push(all[i as int]));
        }
        i = i + 1;
    }
    assert(all.take(i as int) =~= all);
    let ghost before = header_views(kept@);
    kept.push(Header { name: String::from_str(name), value });
    assert(header_views(kept@) =~= before.push(HeaderView { name: name@, value: value@ }));
    *headers = kept;
}

/// A header that was set is found with the value it was set to, under any
/// spelling of its name.
pub proof fn lemma_set_then_found(
    headers: Seq<HeaderView>,
    name: Seq<char>,
    value: Seq<char>,
    asked: Seq<char>,
)
    requires
        same_ignoring_case(name, asked),
    ensures
        header_value(with_header(headers, name, value), asked) == Some(value),
{
    lemma_without_not_found(headers, name, asked);
    assert(with_header(headers, name, value).drop_last() =~= without_header(headers, name));
}

/// Setting one header leaves the value found under every other name as it
/// was.
pub proof fn lemma_set_keeps_others(
    headers: Seq<HeaderView>,
    name: Seq<char>,
    value: Seq<char>,
    asked: Seq<char>,
)
    requires
        !same_ignoring_case(name, asked),
    ensures
        header_value(with_header(headers, name, value), asked) == header_value(headers, asked),
{
    lemma_without_keeps_others(headers, name, asked);
    assert(with_header(headers, name, value).drop_last() =~= without_header(headers, name));
}

/// Once the headers called `name` are removed, none is found under that
/// name.
pub proof fn lemma_without_not_found(headers: Seq<HeaderView>, name: Seq<char>, asked: Seq<char>)
    requires
        same_ignoring_case(name, asked),
    ensures
        header_value(without_header(headers, name), asked) is None,
    decreases headers.len(),
{
    if headers.len() > 0 {
        lemma_without_not_found(headers.drop_last(), name, asked);
        if !same_ignoring_case(headers.last().name, name) {
            let kept = without_header(headers, name);
            assert(kept.drop_last() =~= without_header(headers.drop_last(), name));
            assert(kept.last() == headers.last());
        }
    }
}

/// Removing the headers called `name` leaves the value found under every
/// other name as it was.
pub proof fn lemma_without_keeps_others(headers: Seq<HeaderView>, name: Seq<char>, asked: Seq<char>)
    requires
        !same_ignoring_case(name, asked),
    ensures
        header_value(without_header(headers, name), asked) == header_value(headers, asked),
    decreases headers.len(),
{
    if headers.len() > 0 {
        lemma_without_keeps_others(headers.drop_last(), name, asked);
        if !same_ignoring_case(headers.last().name, name) {
            let kept = without_header(headers, name);
            assert(kept.drop_last() =~= without_header(headers.drop_last(), name));
            assert(kept.last() == headers.last());
        }
    }
}

/// Whether no header of the list is called `name`.
pub open spec fn lacks_header(headers: Seq<HeaderView>, name: Seq<char>) -> bool {
    forall|i: int| 0 <= i < headers.len() ==> !same_ignoring_case(#[trigger] headers[i].name, name)
}

/// In a list without a header called `name`, none is found under that
/// name, and setting it appends it.
pub proof fn lemma_set_fresh(headers: Seq<HeaderView>, name: Seq<char>, value: Seq<char>)
    requires
        lacks_header(headers, name),
    ensures
        header_value(headers, name) is None,
        without_header(headers, name) == headers,
        with_header(headers, name, value) == headers.push(HeaderView { name, value }),
    decreases headers.len(),
{
    if headers.len() > 0 {
        let front = headers.drop_last();
        assert(lacks_header(front, name)) by {
            assert forall|i: int| 0 <= i < front.len() implies !same_ignoring_case(
                #[trigger] front[i].name,
                name,
            ) by {
                assert(front[i] == headers[i]);
            }
        }
        lemma_set_fresh(front, name, value);
        assert(!same_ignoring_case(headers[headers.len() - 1].name, name));
        assert(front.push(headers.last()) =~= headers);
    } else {
        assert(without_header(headers, name) =~= headers);
    }
}

} // verus!
