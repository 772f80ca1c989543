use vstd::prelude::*;

use crate::error::Error;

verus! {

/// Who an event is about: user and device metadata attached to events.
/// The ids hold the 128 bits of a UUID.
#[derive(Debug, Clone)]
pub struct Subject {
    /// Unique identifier for user
    pub user_id: Option<String>,
    /// The timezone label
    pub timezone: Option<String>,
    /// The language set on the device
    pub language: Option<String>,
    /// Custom IP address, overriding the one used by default
    pub ip_address: Option<String>,
    /// Custom user-agent, overriding the one used by default
    pub user_agent: Option<String>,
    /// Domain user ID
    pub domain_user_id: Option<u128>,
    /// Network user ID
    pub network_user_id: Option<u128>,
    /// Session user ID: this visit of this user to this domain
    pub session_user_id: Option<u128>,
}

/// `a` where it is set, else `b`.
pub open spec fn first_set<T>(a: Option<T>, b: Option<T>) -> Option<T> {
    if a is Some {
        a
    } else {
        b
    }
}

fn or_else<T>(a: Option<T>, b: Option<T>) -> (r: Option<T>)
    ensures
        r == first_set(a, b),
{
    match a {
        Some(x) => Some(x),
        None => b,
    }
}

impl Subject {
    /// The subject with no field set.
    pub open spec fn empty() -> Subject {
        Subject {
            user_id: None,
            timezone: None,
            language: None,
            ip_address: None,
            user_agent: None,
            domain_user_id: None,
            network_user_id: None,
            session_user_id: None,
        }
    }

    /// A builder with no field set.
    pub fn builder() -> (r: SubjectBuilder)
        ensures
            r.subject == Subject::empty(),
    {
        SubjectBuilder { subject: Subject::default() }
    }

    /// Merges another subject into this one, field by field; the fields
    /// set in `self` take priority.
    pub fn merge(self, other: Subject) -> (r: Subject)
        ensures
            r == (Subject {
                user_id: first_set(self.user_id, other.user_id),
                timezone: first_set(self.timezone, other.timezone),
                language: first_set(self.language, other.language),
                ip_address: first_set(self.ip_address, other.ip_address),
                user_agent: first_set(self.user_agent, other.user_agent),
                domain_user_id: first_set(self.domain_user_id, other.domain_user_id),
                network_user_id: first_set(self.network_user_id, other.network_user_id),
                session_user_id: first_set(self.session_user_id, other.session_user_id),
            }),
    {
        Subject {
            user_id: or_else(self.user_id, other.user_id),
            timezone: or_else(self.timezone, other.timezone),
            language: or_else(self.language, other.language),
            ip_address: or_else(self.ip_address, other.ip_address),
            user_agent: or_else(self.user_agent, other.user_agent),
            domain_user_id: or_else(self.domain_user_id, other.domain_user_id),
            network_user_id: or_else(self.network_user_id, other.network_user_id),
            session_user_id: or_else(self.session_user_id, other.session_user_id),
        }
    }
}

impl Default for Subject {
    /// The subject with no field set.
    fn default() -> (r: Subject)
        ensures
            r == Subject::empty(),
    {
        Subject {
            user_id: None,
            timezone: None,
            language: None,
            ip_address: None,
            user_agent: None,
            domain_user_id: None,
            network_user_id: None,
            session_user_id: None,
        }
    }
}

/// Collects the fields of a [`Subject`]; every field is optional.
#[derive(Debug, Clone)]
pub struct SubjectBuilder {
    pub subject: Subject,
}

impl SubjectBuilder {
    pub fn user_id(self, user_id: &str) -> (r: SubjectBuilder)
        ensures
            r.subject == (Subject { user_id: r.subject.user_id, ..self.subject }),
            r.subject.user_id matches Some(s) && s@ == user_id@,
    {
        SubjectBuilder { subject: Subject { user_id: Some(user_id.to_owned()), ..self.subject } }
    }

    pub fn timezone(self, timezone: &str) -> (r: SubjectBuilder)
        ensures
            r.subject == (Subject { timezone: r.subject.timezone, ..self.subject }),
            r.subject.timezone matches Some(s) && s@ == timezone@,
    {
        SubjectBuilder { subject: Subject { timezone: Some(timezone.to_owned()), ..self.subject } }
    }

    pub fn language(self, language: &str) -> (r: SubjectBuilder)
        ensures
            r.subject == (Subject { language: r.subject.language, ..self.subject }),
            r.subject.language matches Some(s) && s@ == language@,
    {
        SubjectBuilder { subject: Subject { language: Some(language.to_owned()), ..self.subject } }
    }

    pub fn ip_address(self, ip_address: &str) -> (r: SubjectBuilder)
        ensures
            r.subject == (Subject { ip_address: r.subject.ip_address, ..self.subject }),
            r.subject.ip_address matches Some(s) && s@ == ip_address@,
    {
        SubjectBuilder {
            subject: Subject { ip_address: Some(ip_address.to_owned()), ..self.subject },
        }
    }

    pub fn user_agent(self, user_agent: &str) -> (r: SubjectBuilder)
        ensures
            r.subject == (Subject { user_agent: r.subject.user_agent, ..self.subject }),
            r.subject.user_agent matches Some(s) && s@ == user_agent@,
    {
        SubjectBuilder {
            subject: Subject { user_agent: Some(user_agent.to_owned()), ..self.subject },
        }
    }

    pub fn domain_user_id(self, id: u128) -> (r: SubjectBuilder)
        ensures
            r.subject == (Subject { domain_user_id: Some(id), ..self.subject }),
    {
        SubjectBuilder { subject: Subject { domain_user_id: Some(id), ..self.subject } }
    }

    pub fn network_user_id(self, id: u128) -> (r: SubjectBuilder)
        ensures
            r.subject == (Subject { network_user_id: Some(id), ..self.subject }),
    {
        SubjectBuilder { subject: Subject { network_user_id: Some(id), ..self.subject } }
    }

    pub fn session_user_id(self, id: u128) -> (r: SubjectBuilder)
        ensures
            r.subject == (Subject { session_user_id: Some(id), ..self.subject }),
    {
        SubjectBuilder { subject: Subject { session_user_id: Some(id), ..self.subject } }
    }

    /// The subject; every field is optional, so this always succeeds.
    pub fn build(self) -> (r: Result<Subject, Error>)
        ensures
            r matches Ok(s) && s == self.subject,
    {
        Ok(self.subject)
    }
}

} // verus!
