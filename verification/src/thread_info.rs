//! Updates of a thread's descriptive information: their validation and
//! normalization, and their application to a thread.
use vstd::prelude::*;
use vstd::utf8::encode_utf8;
use crate::principal::Principal;
use crate::text::{is_trim_of, trim};
use crate::nexus::{
    NexusError, Thread, ThreadPermission, ThreadVisibility, spec_has_permission, thread_wf,
};

verus! {

/// The English name of the language with the given ISO 639-3 or ISO 639-1
/// code, as the `isolang` crate gives it; `None` for an unknown code.
pub uninterp spec fn iso_language_name(code: Seq<char>) -> Option<Seq<char>>;

/// The message of the error that the `url` crate gives when it cannot parse
/// the text as an absolute URL; `None` when it parses.
pub uninterp spec fn url_parse_error(text: Seq<char>) -> Option<Seq<char>>;

/// Looks up a language code.
/// Trusted: calls `<isolang::Language as FromStr>::from_str` (an ISO 639-3 code,
/// else an ISO 639-1 code) and, on success, `Language::to_name`; the contract
/// only names the result, as a function of the code alone.
#[verifier::external_body]
fn language_name(code: &str) -> (r: Option<String>)
    ensures
        match r {
            Some(n) => iso_language_name(code@) == Some(n@),
            None => iso_language_name(code@) is None,
        },
{
    match <isolang::Language as std::str::FromStr>::from_str(code) {
        Ok(lang) => Some(lang.to_name().to_string()),
        Err(_) => None,
    }
}

/// Parses a text as an URL.
/// Trusted: calls `url::Url::parse` and, when it fails, returns the text of its
/// error; the contract only names that result, as a function of the text alone.
#[verifier::external_body]
fn url_error(text: &str) -> (r: Option<String>)
    ensures
        match r {
            Some(e) => url_parse_error(text@) == Some(e@),
            None => url_parse_error(text@) is None,
        },
{
    match url::Url::parse(text) {
        Ok(_) => None,
        Err(e) => Some(e.to_string()),
    }
}

/// The changes to a thread's information that a manager asks for; each field
/// that is set replaces the thread's.
#[derive(Debug)]
pub struct UpdateThreadInfo {
    pub name: Option<String>,
    pub language: Option<String>,
    pub image: Option<String>,
    pub tags: Option<Vec<String>>,
    pub description: Option<String>,
    pub visibility: Option<ThreadVisibility>,
}

/// The length in bytes of the UTF-8 encoding of a text (what `str::len` returns).
pub open spec fn byte_len(s: Seq<char>) -> usize {
    encode_utf8(s).len() as usize
}

/// The objection to a (trimmed) thread name, if any.
pub open spec fn name_problem(name: Seq<char>) -> Option<Seq<char>> {
    if name.len() == 0 {
        Some("Thread name cannot be empty"@)
    } else if byte_len(name) > 128 {
        Some("Thread name is too long"@)
    } else {
        None
    }
}

/// The objection to a language code, if any.
pub open spec fn language_problem(code: Seq<char>) -> Option<Seq<char>> {
    match iso_language_name(code) {
        Some(_) => None,
        None => Some(
            "Invalid language code: '"@ + code + "' is not a valid ISO 639-1 or 639-3 code."@,
        ),
    }
}

/// The objection to an image URL, if any.
pub open spec fn image_problem(url: Seq<char>) -> Option<Seq<char>> {
    if byte_len(url) > 256 {
        Some("Thread image URL is too long"@)
    } else {
        match url_parse_error(url) {
            Some(e) => Some("Thread image URL is invalid: "@ + e),
            None => None,
        }
    }
}

/// The objection to an optional field, if it is set and objected to.
pub open spec fn opt_problem(o: Option<String>, f: spec_fn(Seq<char>) -> Option<Seq<char>>) -> Option<Seq<char>> {
    match o {
        Some(s) => f(s@),
        None => None,
    }
}

/// The first of three objections that is there.
pub open spec fn first_problem(a: Option<Seq<char>>, b: Option<Seq<char>>, c: Option<Seq<char>>) -> Option<Seq<char>> {
    if a is Some {
        a
    } else if b is Some {
        b
    } else {
        c
    }
}

/// The message of a failed result, if it failed.
pub open spec fn err_view(r: Result<(), String>) -> Option<Seq<char>> {
    match r {
        Ok(_) => None,
        Err(e) => Some(e@),
    }
}

/// The text of an optional string.
pub open spec fn opt_view(o: Option<String>) -> Option<Seq<char>> {
    match o {
        Some(s) => Some(s@),
        None => None,
    }
}

impl UpdateThreadInfo {
    /// Trims the name and checks it (not empty, at most 128 bytes), replaces
    /// a language code by the language's English name, and checks the image
    /// URL (at most 256 bytes, and parseable). Stops at the first objection,
    /// whose message it returns.
    pub fn validate_and_normalize(&mut self) -> (r: Result<(), String>)
        ensures
            old(self).name is None ==> final(self).name is None,
            old(self).name matches Some(n) ==> (final(self).name matches Some(t) && is_trim_of(
                n@,
                t@,
            )),
            final(self).tags == old(self).tags,
            final(self).description == old(self).description,
            final(self).visibility == old(self).visibility,
            final(self).image == old(self).image,
            err_view(r) == first_problem(
                opt_problem(final(self).name, |n: Seq<char>| name_problem(n)),
                opt_problem(old(self).language, |l: Seq<char>| language_problem(l)),
                opt_problem(old(self).image, |u: Seq<char>| image_problem(u)),
            ),
            opt_problem(final(self).name, |n: Seq<char>| name_problem(n)) is None && opt_problem(
                old(self).language,
                |l: Seq<char>| language_problem(l),
            ) is None ==> opt_view(final(self).language) == (match old(self).language {
                Some(l) => iso_language_name(l@),
                None => None,
            }),
            opt_problem(final(self).name, |n: Seq<char>| name_problem(n)) is Some || opt_problem(
                old(self).language,
                |l: Seq<char>| language_problem(l),
            ) is Some ==> final(self).language == old(self).language,
    {
        if let Some(name) = &self.name {
            let t = trim(name.as_str());
            self.name = Some(t);
        }
        if let Some(name) = &self.name {
            if name.as_str().is_empty() {
                return Err(String::from_str("Thread name cannot be empty"));
            }
            if name.as_str().len() > 128 {
                return Err(String::from_str("Thread name is too long"));
            }
        }
        if let Some(code) = &self.language {
            match language_name(code.as_str()) {
                Some(n) => {
                    self.language = Some(n);
                },
                None => {
                    let mut msg = String::from_str("Invalid language code: '");
                    msg.append(code.as_str());
                    msg.append("' is not a valid ISO 639-1 or 639-3 code.");
                    return Err(msg);
                },
            }
        }
        if let Some(image) = &self.image {
            if image.as_str().len() > 256 {
                return Err(String::from_str("Thread image URL is too long"));
            }
            if let Some(e) = url_error(image.as_str()) {
                let mut msg = String::from_str("Thread image URL is invalid: ");
                msg.append(e.as_str());
                return Err(msg);
            }
        }
        Ok(())
    }
}

/// Applies a validated update to a fetched thread, as its controller or
/// manager asks: each field that is set replaces the thread's, and the
/// thread is stamped with `now`.
pub fn update_thread(thread: Thread, user: &Principal, input: UpdateThreadInfo, now: u64) -> (r: Result<Thread, NexusError>)
    ensures
        r is Ok <==> spec_has_permission(thread, user@, ThreadPermission::Manage),
        r matches Err(e) ==> e == NexusError::PermissionDenied(ThreadPermission::Manage, thread._id),
        r matches Ok(t) ==> {
            &&& t.updated_at == now
            &&& t.name == (match input.name {
                Some(n) => n,
                None => thread.name,
            })
            &&& t.language == (match input.language {
                Some(l) => l,
                None => thread.language,
            })
            &&& t.image == (match input.image {
                Some(i) => i,
                None => thread.image,
            })
            &&& t.tags == (match input.tags {
                Some(g) => g,
                None => thread.tags,
            })
            &&& t.description == (match input.description {
                Some(d) => Some(d),
                None => thread.description,
            })
            &&& t.visibility == (match input.visibility {
                Some(v) => v,
                None => thread.visibility,
            })
            &&& t._id == thread._id && t.id == thread.id && t.status == thread.status
            &&& t.max_participants == thread.max_participants && t.created_at == thread.created_at
            &&& t.controllers == thread.controllers && t.managers == thread.managers
            &&& t.participants == thread.participants
        },
        thread_wf(thread) && r is Ok ==> thread_wf(r->Ok_0),
{
    if !thread.has_permission(user, ThreadPermission::Manage) {
        return Err(NexusError::PermissionDenied(ThreadPermission::Manage, thread._id));
    }
    let mut t = thread;
    t.updated_at = now;
    if let Some(n) = input.name {
        t.name = n;
    }
    if let Some(l) = input.language {
        t.language = l;
    }
    if let Some(i) = input.image {
        t.image = i;
    }
    if let Some(g) = input.tags {
        t.tags = g;
    }
    if let Some(d) = input.description {
        t.description = Some(d);
    }
    if let Some(v) = input.visibility {
        t.visibility = v;
    }
    Ok(t)
}

} // verus!
