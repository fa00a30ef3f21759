use vstd::prelude::*;
use crate::text::{find_char, find_from, lemma_find_from_bounds, starts_with, trim_end, trim_end_char};

verus! {

/// Where the service lives and the token that authenticates requests to it.
pub struct AudiobookshelfClient {
    base_url: String,
    token: Option<String>,
}

pub struct ClientView {
    pub base_url: Seq<char>,
    pub token: Option<Seq<char>>,
}

/// Whether `c` occurs in `s`.
pub open spec fn holds_char(s: Seq<char>, c: char) -> bool {
    exists|i: int| 0 <= i < s.len() && s[i] == c
}

/// Whether `s` is an absolute http or https location.
pub open spec fn is_absolute(s: Seq<char>) -> bool {
    (s.len() >= 7 && s.subrange(0, 7) == "http://"@) || (s.len() >= 8 && s.subrange(0, 8)
        == "https://"@)
}

/// The location the audio of `content` streams from: `content` itself when
/// absolute, else under `base`; with the token as a query parameter when
/// there is one.
pub open spec fn stream_location(base: Seq<char>, token: Seq<char>, content: Seq<char>) -> Seq<
    char,
> {
    let located = if is_absolute(content) {
        content
    } else {
        base + content
    };
    if token.len() == 0 {
        located
    } else {
        located + seq![
            if holds_char(located, '?') {
                '&'
            } else {
                '?'
            },
        ] + "token="@ + token
    }
}

impl View for AudiobookshelfClient {
    type V = ClientView;

    closed spec fn view(&self) -> ClientView {
        ClientView {
            base_url: self.base_url@,
            token: match self.token {
                Some(t) => Some(t@),
                None => None,
            },
        }
    }
}

fn contains_char(s: &str, c: char) -> (r: bool)
    ensures
        r == holds_char(s@, c),
{
    let i = find_char(s, c, 0);
    proof {
        lemma_find_from_in(s@, c, 0);
    }
    i < s.unicode_len()
}

proof fn lemma_find_from_in(s: Seq<char>, c: char, from: int)
    requires
        0 <= from <= s.len(),
    ensures
        find_from(s, c, from) < s.len() <==> exists|i: int| from <= i < s.len() && s[i] == c,
        find_from(s, c, from) < s.len() ==> s[find_from(s, c, from)] == c,
    decreases s.len() - from,
{
    lemma_find_from_bounds(s, c, from);
    if from < s.len() && s[from] != c {
        lemma_find_from_in(s, c, from + 1);
        if exists|i: int| from <= i < s.len() && s[i] == c {
            let i = choose|i: int| from <= i < s.len() && s[i] == c;
            assert(from + 1 <= i);
        }
    }
}

impl AudiobookshelfClient {
    /// No server and no token yet.
    pub fn new() -> (r: AudiobookshelfClient)
        ensures
            r@.base_url.len() == 0,
            r@.token is None,
    {
        AudiobookshelfClient { base_url: String::new(), token: None }
    }

    /// Use the server at `url`; trailing slashes are dropped.
    pub fn set_server(&mut self, url: &str)
        ensures
            final(self)@ == (ClientView { base_url: trim_end(url@, '/'), ..old(self)@ }),
    {
        self.base_url = String::from_str(trim_end_char(url, '/'));
    }

    pub fn server_url(&self) -> (r: String)
        ensures
            r@ == self@.base_url,
    {
        self.base_url.clone()
    }

    pub fn set_token(&mut self, token: &str)
        ensures
            final(self)@ == (ClientView { token: Some(token@), ..old(self)@ }),
    {
        self.token = Some(String::from_str(token));
    }

    pub fn token(&self) -> (r: Option<String>)
        ensures
            match r {
                Some(t) => self@.token == Some(t@),
                None => self@.token is None,
            },
    {
        match &self.token {
            Some(t) => Some(t.clone()),
            None => None,
        }
    }

    pub fn is_authenticated(&self) -> (r: bool)
        ensures
            r == self@.token is Some,
    {
        self.token.is_some()
    }

    /// The full location of `path` on the server.
    pub fn endpoint(&self, path: &str) -> (r: String)
        ensures
            r@ == self@.base_url + path@,
    {
        let mut url = self.base_url.clone();
        url.append(path);
        url
    }

    /// The `Authorization` header value, when a token is set.
    pub fn authorization(&self) -> (r: Option<String>)
        ensures
            match r {
                Some(h) => self@.token is Some && h@ == "Bearer "@ + self@.token->0,
                None => self@.token is None,
            },
    {
        match &self.token {
            Some(t) => {
                let mut h = String::from_str("Bearer ");
                h.append(t.as_str());
                Some(h)
            },
            None => None,
        }
    }

    /// The location to stream the audio at `content_url` from.
    pub fn audio_stream_url(&self, content_url: &str) -> (r: String)
        ensures
            r@ == stream_location(
                self@.base_url,
                match self@.token {
                    Some(t) => t,
                    None => Seq::<char>::empty(),
                },
                content_url@,
            ),
    {
        proof {
            reveal_strlit("http://");
            reveal_strlit("https://");
            reveal_strlit("token=");
            reveal_strlit("");
        }
        let mut located = if starts_with(content_url, "http://") || starts_with(
            content_url,
            "https://",
        ) {
            String::from_str(content_url)
        } else {
            let mut u = self.base_url.clone();
            u.append(content_url);
            u
        };
        assert(located@ == if is_absolute(content_url@) {
            content_url@
        } else {
            self@.base_url + content_url@
        });
        let token: &str = match &self.token {
            Some(t) => t.as_str(),
            None => "",
        };
        assert(token@ == match self@.token {
            Some(t) => t,
            None => Seq::<char>::empty(),
        });
        if token.unicode_len() == 0 {
            return located;
        }
        let separator = if contains_char(located.as_str(), '?') {
            '&'
        } else {
            '?'
        };
        let ghost before = located@;
        located.push(separator);
        located.append("token=");
        located.append(token);
        assert(located@ =~= before + seq![separator] + "token="@ + token@);
        located
    }
}

/// Number of items asked for per page when listing a library.
pub const PAGE_SIZE: usize = 100;

/// After a page of `count` items at `offset`, of `total` in all: the offset of
/// the next page, or `None` once the pages are exhausted.
pub fn next_page(offset: usize, count: usize, total: usize) -> (r: Option<usize>)
    ensures
        r == if count == 0 || offset + count >= total {
            None
        } else {
            Some((offset + count) as usize)
        },
{
    if count == 0 || count >= total || offset >= total - count {
        None
    } else {
        Some(offset + count)
    }
}

} // verus!
