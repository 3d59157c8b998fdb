//! A client's wormhole session: which application and mailbox server it
//! speaks for, whether it has asked for a fresh code, and the code once known.
//!
//! The network exchange that opens the mailbox and allocates a code runs
//! outside this crate; it reads the request recorded here and delivers the
//! code with `set_code`.
use vstd::prelude::*;

verus! {

/// The number of words in a code that `get_code` asks for.
pub const CODE_WORDS: usize = 2;

/// The abstract state of a session.
pub struct SessionView {
    pub app_id: Seq<char>,
    pub mailbox_server: Seq<char>,
    pub code_words: Option<nat>,
    pub code: Option<Seq<char>>,
}

impl SessionView {
    /// The state after a code of `num_words` words is asked for.
    pub open spec fn with_request(self, num_words: nat) -> SessionView {
        SessionView { code_words: Some(num_words), ..self }
    }

    /// The state after the code becomes known.
    pub open spec fn with_code(self, code: Seq<char>) -> SessionView {
        SessionView { code: Some(code), ..self }
    }
}

/// A wormhole session as the client holds it.
pub struct Wormhole {
    app_id: String,
    mailbox_server: String,
    code_words: Option<usize>,
    code: Option<String>,
}

impl View for Wormhole {
    type V = SessionView;

    closed spec fn view(&self) -> SessionView {
        SessionView {
            app_id: self.app_id@,
            mailbox_server: self.mailbox_server@,
            code_words: match self.code_words {
                Some(n) => Some(n as nat),
                None => None,
            },
            code: match self.code {
                Some(c) => Some(c@),
                None => None,
            },
        }
    }
}

/// The view of an optional string.
pub open spec fn opt_view(s: Option<String>) -> Option<Seq<char>> {
    match s {
        Some(c) => Some(c@),
        None => None,
    }
}

impl Wormhole {
    /// A fresh session for `app_id` at `mailbox_server`: no code yet, and none
    /// asked for.
    pub fn new(app_id: &str, mailbox_server: &str) -> (w: Wormhole)
        ensures
            w@ == (SessionView {
                app_id: app_id@,
                mailbox_server: mailbox_server@,
                code_words: None,
                code: None,
            }),
    {
        Wormhole {
            app_id: String::from_str(app_id),
            mailbox_server: String::from_str(mailbox_server),
            code_words: None,
            code: None,
        }
    }

    /// Asks for a fresh code of `num_words` words.
    pub fn allocate_code(&mut self, num_words: usize)
        ensures
            final(self)@ == old(self)@.with_request(num_words as nat),
    {
        self.code_words = Some(num_words);
    }

    /// Sets the session's code: one the user typed, or the one the server
    /// allocated.
    pub fn set_code(&mut self, code: &str)
        ensures
            final(self)@ == old(self)@.with_code(code@),
    {
        self.code = Some(String::from_str(code));
    }

    /// The session's code, once known.
    pub fn code(&self) -> (c: Option<String>)
        ensures
            opt_view(c) == self@.code,
    {
        match &self.code {
            Some(c) => Some(c.clone()),
            None => None,
        }
    }

    /// The application this session speaks for.
    pub fn app_id(&self) -> (a: String)
        ensures
            a@ == self@.app_id,
    {
        self.app_id.clone()
    }

    /// The mailbox server this session speaks to.
    pub fn mailbox_server(&self) -> (s: String)
        ensures
            s@ == self@.mailbox_server,
    {
        self.mailbox_server.clone()
    }

    /// The number of words asked for, if a code has been asked for.
    pub fn code_words(&self) -> (n: Option<usize>)
        ensures
            match n {
                Some(k) => self@.code_words == Some(k as nat),
                None => self@.code_words is None,
            },
    {
        self.code_words
    }
}

/// Opens a session for `app_id` at `mailbox_server`.
pub fn connect(app_id: String, mailbox_server: String) -> (w: Wormhole)
    ensures
        w@ == (SessionView {
            app_id: app_id@,
            mailbox_server: mailbox_server@,
            code_words: None,
            code: None,
        }),
{
    Wormhole::new(app_id.as_str(), mailbox_server.as_str())
}

/// Asks for a two-word code and returns the session's code if it is known
/// already; `None` while the allocation is still under way.
pub fn get_code(w: &mut Wormhole) -> (c: Option<String>)
    ensures
        final(w)@ == old(w)@.with_request(CODE_WORDS as nat),
        opt_view(c) == old(w)@.code,
{
    w.allocate_code(CODE_WORDS);
    w.code()
}

/// A code that has been set is what `get_code` returns from then on, and
/// asking again changes nothing.
pub proof fn lemma_get_code_after_set_code(v: SessionView, code: Seq<char>)
    ensures
        v.with_code(code).code == Some(code),
        v.with_code(code).with_request(CODE_WORDS as nat).code == Some(code),
        v.with_request(CODE_WORDS as nat).with_request(CODE_WORDS as nat) == v.with_request(
            CODE_WORDS as nat,
        ),
{
}

/// Asking for a code records how many words were asked for and leaves the
/// code as it was: only `set_code` makes a code known.
pub proof fn lemma_request_keeps_code(v: SessionView, n: nat)
    ensures
        v.with_request(n).code == v.code,
        v.with_request(n).code_words == Some(n),
        v.code is None ==> v.with_request(n).code is None,
{
}

/// Neither asking for a code nor setting one changes which application and
/// server the session belongs to.
pub proof fn lemma_session_identity_kept(v: SessionView, n: nat, code: Seq<char>)
    ensures
        v.with_request(n).app_id == v.app_id,
        v.with_request(n).mailbox_server == v.mailbox_server,
        v.with_code(code).app_id == v.app_id,
        v.with_code(code).mailbox_server == v.mailbox_server,
{
}

} // verus!
