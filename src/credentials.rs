use vstd::prelude::*;

verus! {

/// What is kept between runs to log back in.
#[derive(Clone, Debug)]
pub struct StoredSession {
    pub server_url: String,
    pub library_id: String,
    pub token: String,
}

pub struct StoredView {
    pub server_url: Seq<char>,
    pub library_id: Seq<char>,
    pub token: Seq<char>,
}

impl View for StoredSession {
    type V = StoredView;

    open spec fn view(&self) -> StoredView {
        StoredView {
            server_url: self.server_url@,
            library_id: self.library_id@,
            token: self.token@,
        }
    }
}

/// `preferred` unless it is empty.
pub open spec fn or_else(preferred: Seq<char>, fallback: Seq<char>) -> Seq<char> {
    if preferred.len() > 0 {
        preferred
    } else {
        fallback
    }
}

fn pick(preferred: &str, fallback: String) -> (r: String)
    ensures
        r@ == or_else(preferred@, fallback@),
{
    if preferred.unicode_len() > 0 {
        String::from_str(preferred)
    } else {
        fallback
    }
}

impl StoredSession {
    pub fn empty() -> (r: StoredSession)
        ensures
            r@.server_url.len() == 0,
            r@.library_id.len() == 0,
            r@.token.len() == 0,
    {
        StoredSession { server_url: String::new(), library_id: String::new(), token: String::new() }
    }

    /// The stored file's values, with the desktop settings' server and
    /// library taking precedence where they are set.
    pub fn with_settings(self, server_url: &str, library_id: &str) -> (r: StoredSession)
        ensures
            r@ == (StoredView {
                server_url: or_else(server_url@, self@.server_url),
                library_id: or_else(library_id@, self@.library_id),
                token: self@.token,
            }),
    {
        StoredSession {
            server_url: pick(server_url, self.server_url),
            library_id: pick(library_id, self.library_id),
            token: self.token,
        }
    }
}

/// How to log back in without asking.
#[derive(Debug)]
pub struct RestorePlan {
    pub server_url: String,
    pub token: String,
    /// The library to open, when one was kept.
    pub library_id: Option<String>,
}

/// From what was kept and the token in the keyring (which wins when
/// present): the login to try, or `None` when the server or the token is
/// missing.
pub fn restore_plan(saved: StoredSession, secret_token: &str) -> (r: Option<RestorePlan>)
    ensures
        ({
            let token = or_else(secret_token@, saved@.token);
            match r {
                Some(p) => {
                    &&& saved@.server_url.len() > 0
                    &&& token.len() > 0
                    &&& p.server_url@ == saved@.server_url
                    &&& p.token@ == token
                    &&& match p.library_id {
                        Some(l) => saved@.library_id.len() > 0 && l@ == saved@.library_id,
                        None => saved@.library_id.len() == 0,
                    }
                },
                None => saved@.server_url.len() == 0 || token.len() == 0,
            }
        }),
{
    let token = pick(secret_token, saved.token);
    if saved.server_url.as_str().unicode_len() == 0 || token.as_str().unicode_len() == 0 {
        return None;
    }
    let library_id = if saved.library_id.as_str().unicode_len() > 0 {
        Some(saved.library_id)
    } else {
        None
    };
    Some(RestorePlan { server_url: saved.server_url, token, library_id })
}

} // verus!
