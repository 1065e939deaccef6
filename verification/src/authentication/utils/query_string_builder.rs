//! A builder for `key=value&key=value` strings.
use std::borrow::Cow;
use std::fmt::Display;
use vstd::prelude::*;
use vstd::string::*;

verus! {

/// One `key=value` entry.
#[derive(Debug, Hash, Eq, PartialEq)]
pub struct KVP<'a> {
    pub key: &'static str,
    pub value: Cow<'a, str>,
}

impl<'a> View for KVP<'a> {
    type V = (Seq<char>, Seq<char>);

    open spec fn view(&self) -> (Seq<char>, Seq<char>) {
        (self.key@, self.value@)
    }
}

/// The entries of a query string, in the order in which they were added.
///
/// Keys and values are written out as they are: nothing is escaped.
#[derive(Debug)]
pub struct QueryString<'a> {
    pub query: Vec<KVP<'a>>,
}

/// What `url::Url::parse_with_params` makes of `input` and `pairs`: the text of
/// the URL that it returns, or `None` where it returns an error.
pub uninterp spec fn spec_url_with_params(
    input: Seq<char>,
    pairs: Seq<(Seq<char>, Seq<char>)>,
) -> Option<Seq<char>>;

/// The most characters of a text to which entries are added as a URL.
pub const MAX_URL_CHARS: usize = 0xf_ffff;

/// Entries can be added to the text as a URL: it holds no `#`, so a URL
/// parsed from it has no fragment, and it is of at most [`MAX_URL_CHARS`]
/// characters.
pub open spec fn spec_takes_params(input: Seq<char>) -> bool {
    &&& input.len() <= MAX_URL_CHARS
    &&& forall|i: int| 0 <= i < input.len() ==> input[i] != '#'
}

/// Whether entries can be added to `input` as a URL: see
/// [`spec_takes_params`].
pub fn takes_params(input: &str) -> (takes: bool)
    ensures
        takes == spec_takes_params(input@),
{
    let count = input.unicode_len();
    if count > MAX_URL_CHARS {
        return false;
    }
    let mut i: usize = 0;
    while i < count
        invariant
            i <= count,
            count == input@.len(),
            forall|k: int| 0 <= k < i ==> input@[k] != '#',
        decreases count - i,
    {
        if input.get_char(i) == '#' {
            return false;
        }
        i = i + 1;
    }
    true
}

/// `url::Url::parse_with_params` on `input` and the entries of `query`, with
/// the URL that it returns written out as text. The call is a function of its
/// arguments: it parses `input` as an absolute URL and appends each entry to
/// the query, percent-encoded.
///
/// The URL keeps the places of its query and of its fragment as 32-bit
/// offsets, and the call panics where it has to note one past that range:
/// the start of a query that it opens on a URL longer than the range, or the
/// start of a fragment that it puts back behind entries that have grown the
/// URL past it. So it is kept to an `input` without a fragment and of at
/// most [`MAX_URL_CHARS`] characters. A character of the input makes for
/// some hundred bytes of the URL at the most, where a host is mapped and
/// written as ASCII, so that such a URL stays far within the range.
#[verifier::external_body]
fn parse_with_params(input: &str, query: &Vec<KVP>) -> (parsed: Result<String, url::ParseError>)
    requires
        spec_takes_params(input@),
    ensures
        match parsed {
            Ok(text) => spec_url_with_params(
                input@,
                Seq::new(query@.len(), |i: int| query@[i]@),
            ) == Some(text@),
            Err(_) => spec_url_with_params(input@, Seq::new(query@.len(), |i: int| query@[i]@))
                is None,
        },
{
    url::Url::parse_with_params(input, query.iter().map(|kvp| (kvp.key, &kvp.value))).map(
        String::from,
    )
}

/// The text of one entry: key, `=`, value.
pub open spec fn spec_entry(pair: (Seq<char>, Seq<char>)) -> Seq<char> {
    pair.0 + seq!['='] + pair.1
}

/// The text of the entries `pairs`: each as key, `=`, value, with `&` between
/// one entry and the next.
pub open spec fn spec_build(pairs: Seq<(Seq<char>, Seq<char>)>) -> Seq<char>
    decreases pairs.len(),
{
    if pairs.len() == 0 {
        Seq::empty()
    } else if pairs.len() == 1 {
        spec_entry(pairs[0])
    } else {
        spec_build(pairs.drop_last()) + seq!['&'] + spec_entry(pairs.last())
    }
}

impl<'a> View for QueryString<'a> {
    type V = Seq<(Seq<char>, Seq<char>)>;

    open spec fn view(&self) -> Seq<(Seq<char>, Seq<char>)> {
        Seq::new(self.query@.len(), |i: int| self.query@[i]@)
    }
}

impl<'a> Default for QueryString<'a> {
    fn default() -> (q: Self)
        ensures
            q@ == Seq::<(Seq<char>, Seq<char>)>::empty(),
    {
        QueryString { query: Vec::new() }
    }
}

impl<'a> QueryString<'a> {
    /// An empty query string with room for `capacity` entries.
    pub fn new_with_capacity(capacity: usize) -> (q: Self)
        ensures
            q@ == Seq::<(Seq<char>, Seq<char>)>::empty(),
    {
        QueryString { query: Vec::with_capacity(capacity) }
    }

    /// Adds the entry `key=value`.
    pub fn add_str(self, key: &'static str, value: &'a str) -> (q: Self)
        ensures
            q@ == self@.push((key@, value@)),
    {
        let mut q = self;
        q.query.push(KVP { key, value: Cow::Borrowed(value) });
        assert(q@ =~= self@.push((key@, value@)));
        q
    }

    /// Adds the entry `key=value` where there is a value, and nothing where
    /// there is none.
    pub fn add_optional_str(self, key: &'static str, value: Option<&'a str>) -> (q: Self)
        ensures
            q@ == match value {
                Some(text) => self@.push((key@, text@)),
                None => self@,
            },
    {
        match value {
            Some(text) => self.add_str(key, text),
            None => self,
        }
    }

    /// Adds the entry `key=value`, taking the value over.
    pub fn add_string(self, key: &'static str, value: String) -> (q: Self)
        ensures
            q@ == self@.push((key@, value@)),
    {
        let mut q = self;
        q.query.push(KVP { key, value: Cow::Owned(value) });
        assert(q@ =~= self@.push((key@, value@)));
        q
    }

    /// Adds the entry `key=value` where there is a value, and nothing where
    /// there is none.
    pub fn add_optional_string(self, key: &'static str, value: Option<String>) -> (q: Self)
        ensures
            q@ == match value {
                Some(text) => self@.push((key@, text@)),
                None => self@,
            },
    {
        match value {
            Some(text) => self.add_string(key, text),
            None => self,
        }
    }

    /// Adds the entry `key=value`, the value written as `Display` writes it.
    pub fn add_display<T: Display>(self, key: &'static str, value: T) -> (q: Self)
        ensures
            q@.len() == self@.len() + 1,
            q@.drop_last() == self@,
            q@.last().0 == key@,
            q.query@.last().value matches Cow::Owned(text) && to_string_from_display_ensures::<
                T,
            >(&value, text),
    {
        let text = value.to_string();
        let mut q = self;
        q.query.push(KVP { key, value: Cow::Owned(text) });
        assert(q@.drop_last() =~= self@);
        q
    }

    /// Adds the entry `key=value` where there is a value, written as
    /// `Display` writes it, and nothing where there is none.
    pub fn add_optional_display<T: Display>(self, key: &'static str, value: Option<T>) -> (q:
        Self)
        ensures
            value is None ==> q@ == self@,
            value matches Some(shown) ==> {
                &&& q@.len() == self@.len() + 1
                &&& q@.drop_last() == self@
                &&& q@.last().0 == key@
                &&& q.query@.last().value matches Cow::Owned(text)
                    && to_string_from_display_ensures::<T>(&shown, text)
            },
    {
        match value {
            Some(shown) => self.add_display(key, shown),
            None => self,
        }
    }

    /// The text of the query string: every entry as key, `=`, value, in the
    /// order in which they were added, with `&` between one and the next. With
    /// no entry the text is empty.
    pub fn build(self) -> (text: String)
        ensures
            text@ == spec_build(self@),
    {
        let mut text = String::new();
        let mut i: usize = 0;
        while i < self.query.len()
            invariant
                i <= self.query.len(),
                text@ == spec_build(self@.take(i as int)),
            decreases self.query.len() - i,
        {
            let kvp = &self.query[i];
            let ghost before = text@;
            if i != 0 {
                text.append("&");
            }
            text.append(kvp.key);
            text.append("=");
            match &kvp.value {
                Cow::Borrowed(value) => text.append(value),
                Cow::Owned(value) => text.append(value.as_str()),
            }
            proof {
                reveal_strlit("&");
                reveal_strlit("=");
                let upto = self@.take(i as int + 1);
                assert(upto.drop_last() =~= self@.take(i as int));
                assert(upto.last() == kvp@);
                assert("&"@ =~= seq!['&']);
                assert("="@ =~= seq!['=']);
                if i == 0 {
                    assert(text@ =~= spec_entry(kvp@));
                } else {
                    assert(text@ =~= before + seq!['&'] + spec_entry(kvp@));
                }
            }
            i = i + 1;
        }
        assert(self@.take(i as int) =~= self@);
        text
    }
}

impl<'a> QueryString<'a> {
    /// The URL `url` with every entry added to its query, percent-encoded, as
    /// `url::Url::parse_with_params` writes it; the error where `url` is no
    /// absolute URL. The text `url` has to be without a `#` and of at most
    /// [`MAX_URL_CHARS`] characters.
    pub fn build_with_url(self, url: &str) -> (built: Result<String, url::ParseError>)
        requires
            spec_takes_params(url@),
        ensures
            match built {
                Ok(text) => spec_url_with_params(url@, self@) == Some(text@),
                Err(_) => spec_url_with_params(url@, self@) is None,
            },
    {
        assert(self@ =~= Seq::new(self.query@.len(), |i: int| self.query@[i]@));
        parse_with_params(url, &self.query)
    }
}

/// A query string with no entry builds the empty text, and one entry builds
/// `key=value` without any `&`.
pub proof fn lemma_build_small(key: Seq<char>, value: Seq<char>)
    ensures
        spec_build(Seq::empty()) == Seq::<char>::empty(),
        spec_build(seq![(key, value)]) == key + seq!['='] + value,
{
}

/// Adding an entry to a query string that has one already appends `&` and the
/// entry to its text.
pub proof fn lemma_build_push(pairs: Seq<(Seq<char>, Seq<char>)>, key: Seq<char>, value: Seq<char>)
    requires
        pairs.len() > 0,
    ensures
        spec_build(pairs.push((key, value))) == spec_build(pairs) + seq!['&'] + key + seq!['=']
            + value,
{
    let longer = pairs.push((key, value));
    assert(longer.drop_last() =~= pairs);
    assert(spec_build(longer) =~= spec_build(pairs) + seq!['&'] + key + seq!['='] + value);
}

} // verus!
