//! The session registry: the process's single slot for the currently active
//! live activity — an identity tag and the cached display metadata, set and
//! cleared together, never half-populated.

use vstd::prelude::*;

verus! {

/// Display metadata cached at creation time, enough to re-render the
/// notification on a later update without the original request.
#[derive(Debug)]
pub struct Metadata {
    pub title: String,
    pub text: String,
    pub icon: Option<String>,
    pub bundle_id: Option<String>,
    pub task_name: String,
    pub task_type: String,
}

/// The mathematical content of cached metadata.
pub struct MetadataView {
    pub title: Seq<char>,
    pub text: Seq<char>,
    pub icon: Option<Seq<char>>,
    pub bundle_id: Option<Seq<char>>,
    pub task_name: Seq<char>,
    pub task_type: Seq<char>,
}

/// The view of an optional string.
pub open spec fn opt_view(o: Option<String>) -> Option<Seq<char>> {
    match o {
        Some(s) => Some(s@),
        None => None,
    }
}

impl View for Metadata {
    type V = MetadataView;

    open spec fn view(&self) -> MetadataView {
        MetadataView {
            title: self.title@,
            text: self.text@,
            icon: opt_view(self.icon),
            bundle_id: opt_view(self.bundle_id),
            task_name: self.task_name@,
            task_type: self.task_type@,
        }
    }
}

/// Duplicates an optional string.
pub fn clone_opt_string(o: &Option<String>) -> (r: Option<String>)
    ensures
        r == *o,
{
    match o {
        Some(s) => Some(s.clone()),
        None => None,
    }
}

impl Clone for Metadata {
    fn clone(&self) -> (r: Metadata)
        ensures
            r == *self,
    {
        Metadata {
            title: self.title.clone(),
            text: self.text.clone(),
            icon: clone_opt_string(&self.icon),
            bundle_id: clone_opt_string(&self.bundle_id),
            task_name: self.task_name.clone(),
            task_type: self.task_type.clone(),
        }
    }
}

/// The active session: the tag addressing the notification with the OS, and
/// the metadata to re-render it.
#[derive(Debug)]
pub struct Session {
    pub tag: String,
    pub meta: Metadata,
}

/// The mathematical content of a session.
pub struct SessionView {
    pub tag: Seq<char>,
    pub meta: MetadataView,
}

impl View for Session {
    type V = SessionView;

    open spec fn view(&self) -> SessionView {
        SessionView { tag: self.tag@, meta: self.meta@ }
    }
}

impl Clone for Session {
    fn clone(&self) -> (r: Session)
        ensures
            r == *self,
    {
        Session { tag: self.tag.clone(), meta: self.meta.clone() }
    }
}

/// The slot holding at most one active session. Tag and metadata live and
/// die together: there is no state with one but not the other. A caller that
/// shares the registry across threads guards it as a whole, so every
/// operation here reads or writes the pair atomically.
pub struct SessionRegistry {
    current: Option<Session>,
}

impl View for SessionRegistry {
    type V = Option<SessionView>;

    closed spec fn view(&self) -> Option<SessionView> {
        match self.current {
            Some(s) => Some(s@),
            None => None,
        }
    }
}

impl SessionRegistry {
    /// An empty registry: no session is active.
    pub fn new() -> (r: SessionRegistry)
        ensures
            r@ is None,
    {
        SessionRegistry { current: None }
    }

    /// Installs `tag` and `meta` as the active session, replacing any
    /// previous one.
    pub fn set(&mut self, tag: String, meta: Metadata)
        ensures
            final(self)@ == Some(SessionView { tag: tag@, meta: meta@ }),
    {
        self.current = Some(Session { tag, meta });
    }

    /// Clears the active session, if any.
    pub fn clear(&mut self)
        ensures
            final(self)@ is None,
    {
        self.current = None;
    }

    /// Reads the active session.
    pub fn get(&self) -> (r: Option<Session>)
        ensures
            match r {
                Some(s) => self@ == Some(s@),
                None => self@ is None,
            },
    {
        match &self.current {
            Some(s) => Some(s.clone()),
            None => None,
        }
    }

    /// Reads the active session's tag.
    pub fn current_tag(&self) -> (r: Option<String>)
        ensures
            match r {
                Some(t) => self@ is Some && self@.unwrap().tag == t@,
                None => self@ is None,
            },
    {
        match &self.current {
            Some(s) => Some(s.tag.clone()),
            None => None,
        }
    }

    /// Reads the active session's cached metadata.
    pub fn current_meta(&self) -> (r: Option<Metadata>)
        ensures
            match r {
                Some(m) => self@ is Some && self@.unwrap().meta == m@,
                None => self@ is None,
            },
    {
        match &self.current {
            Some(s) => Some(s.meta.clone()),
            None => None,
        }
    }
}

} // verus!
