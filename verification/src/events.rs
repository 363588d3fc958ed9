//! The payloads of deliveries.
//!
//! A delivery names its kind in a header and carries a JSON document in its
//! body. For the kinds that this library knows, the document is decoded; a
//! document of any other kind is kept as the text that came.
//!
//! A body of a known kind is refused unless it is JSON by itself and an
//! object with the members that its kind requires. What lies inside those
//! members is left to the hooks.
//!
//! Decoding goes through a patched copy of the body. The body of a
//! `pull_request` delivery is some object `{..}`; its patched copy is
//! `{"PullRequest":{..}}`, the form in which a tagged union is written in
//! JSON, with the kind's name in camel case as the tag.

use crate::text::str_eq;
use vstd::prelude::*;
use vstd::string::StringExecFns;

verus! {

/// `serde_json::Value`, a decoded JSON document. Of what it holds, the
/// library speaks only through `members`.
#[verifier::external_type_specification]
#[verifier::external_body]
pub struct ExJsonValue(serde_json::Value);

/// The kinds of events that this library knows.
#[derive(Clone, Copy, Debug, PartialEq, Eq, Structural)]
pub enum EventKind {
    CommitComment,
    Create,
    Delete,
    Deployment,
    DeploymentStatus,
    Fork,
    Gollum,
    IssueComment,
    Issues,
    Member,
    Membership,
    PageBuild,
    Ping,
    Public,
    PullRequest,
    PullRequestReviewComment,
    Push,
    Release,
    Repository,
    Status,
    TeamAdd,
    Watch,
}

impl EventKind {
    /// The name under which the sender announces this kind.
    pub open spec fn spec_name(self) -> Seq<char> {
        match self {
            EventKind::CommitComment => "commit_comment"@,
            EventKind::Create => "create"@,
            EventKind::Delete => "delete"@,
            EventKind::Deployment => "deployment"@,
            EventKind::DeploymentStatus => "deployment_status"@,
            EventKind::Fork => "fork"@,
            EventKind::Gollum => "gollum"@,
            EventKind::IssueComment => "issue_comment"@,
            EventKind::Issues => "issues"@,
            EventKind::Member => "member"@,
            EventKind::Membership => "membership"@,
            EventKind::PageBuild => "page_build"@,
            EventKind::Ping => "ping"@,
            EventKind::Public => "public"@,
            EventKind::PullRequest => "pull_request"@,
            EventKind::PullRequestReviewComment => "pull_request_review_comment"@,
            EventKind::Push => "push"@,
            EventKind::Release => "release"@,
            EventKind::Repository => "repository"@,
            EventKind::Status => "status"@,
            EventKind::TeamAdd => "team_add"@,
            EventKind::Watch => "watch"@,
        }
    }

    /// The kind that `name` announces, if it is a known one.
    pub open spec fn named(name: Seq<char>) -> Option<EventKind> {
        if name == "commit_comment"@ {
            Some(EventKind::CommitComment)
        } else if name == "create"@ {
            Some(EventKind::Create)
        } else if name == "delete"@ {
            Some(EventKind::Delete)
        } else if name == "deployment"@ {
            Some(EventKind::Deployment)
        } else if name == "deployment_status"@ {
            Some(EventKind::DeploymentStatus)
        } else if name == "fork"@ {
            Some(EventKind::Fork)
        } else if name == "gollum"@ {
            Some(EventKind::Gollum)
        } else if name == "issue_comment"@ {
            Some(EventKind::IssueComment)
        } else if name == "issues"@ {
            Some(EventKind::Issues)
        } else if name == "member"@ {
            Some(EventKind::Member)
        } else if name == "membership"@ {
            Some(EventKind::Membership)
        } else if name == "page_build"@ {
            Some(EventKind::PageBuild)
        } else if name == "ping"@ {
            Some(EventKind::Ping)
        } else if name == "public"@ {
            Some(EventKind::Public)
        } else if name == "pull_request"@ {
            Some(EventKind::PullRequest)
        } else if name == "pull_request_review_comment"@ {
            Some(EventKind::PullRequestReviewComment)
        } else if name == "push"@ {
            Some(EventKind::Push)
        } else if name == "release"@ {
            Some(EventKind::Release)
        } else if name == "repository"@ {
            Some(EventKind::Repository)
        } else if name == "status"@ {
            Some(EventKind::Status)
        } else if name == "team_add"@ {
            Some(EventKind::TeamAdd)
        } else if name == "watch"@ {
            Some(EventKind::Watch)
        } else {
            None
        }
    }

    /// The name under which the sender announces this kind.
    pub fn name(self) -> (name: &'static str)
        ensures
            name@ == self.spec_name(),
    {
        match self {
            EventKind::CommitComment => "commit_comment",
            EventKind::Create => "create",
            EventKind::Delete => "delete",
            EventKind::Deployment => "deployment",
            EventKind::DeploymentStatus => "deployment_status",
            EventKind::Fork => "fork",
            EventKind::Gollum => "gollum",
            EventKind::IssueComment => "issue_comment",
            EventKind::Issues => "issues",
            EventKind::Member => "member",
            EventKind::Membership => "membership",
            EventKind::PageBuild => "page_build",
            EventKind::Ping => "ping",
            EventKind::Public => "public",
            EventKind::PullRequest => "pull_request",
            EventKind::PullRequestReviewComment => "pull_request_review_comment",
            EventKind::Push => "push",
            EventKind::Release => "release",
            EventKind::Repository => "repository",
            EventKind::Status => "status",
            EventKind::TeamAdd => "team_add",
            EventKind::Watch => "watch",
        }
    }

    /// Finds the kind that `name` announces.
    pub fn from_name(name: &str) -> (kind: Option<EventKind>)
        ensures
            kind == EventKind::named(name@),
    {
        if str_eq(name, "commit_comment") {
            Some(EventKind::CommitComment)
        } else if str_eq(name, "create") {
            Some(EventKind::Create)
        } else if str_eq(name, "delete") {
            Some(EventKind::Delete)
        } else if str_eq(name, "deployment") {
            Some(EventKind::Deployment)
        } else if str_eq(name, "deployment_status") {
            Some(EventKind::DeploymentStatus)
        } else if str_eq(name, "fork") {
            Some(EventKind::Fork)
        } else if str_eq(name, "gollum") {
            Some(EventKind::Gollum)
        } else if str_eq(name, "issue_comment") {
            Some(EventKind::IssueComment)
        } else if str_eq(name, "issues") {
            Some(EventKind::Issues)
        } else if str_eq(name, "member") {
            Some(EventKind::Member)
        } else if str_eq(name, "membership") {
            Some(EventKind::Membership)
        } else if str_eq(name, "page_build") {
            Some(EventKind::PageBuild)
        } else if str_eq(name, "ping") {
            Some(EventKind::Ping)
        } else if str_eq(name, "public") {
            Some(EventKind::Public)
        } else if str_eq(name, "pull_request") {
            Some(EventKind::PullRequest)
        } else if str_eq(name, "pull_request_review_comment") {
            Some(EventKind::PullRequestReviewComment)
        } else if str_eq(name, "push") {
            Some(EventKind::Push)
        } else if str_eq(name, "release") {
            Some(EventKind::Release)
        } else if str_eq(name, "repository") {
            Some(EventKind::Repository)
        } else if str_eq(name, "status") {
            Some(EventKind::Status)
        } else if str_eq(name, "team_add") {
            Some(EventKind::TeamAdd)
        } else if str_eq(name, "watch") {
            Some(EventKind::Watch)
        } else {
            None
        }
    }
}

impl EventKind {
    /// The members that the payload of a delivery of this kind must have.
    pub open spec fn spec_required(self) -> Seq<Seq<char>> {
        match self {
            EventKind::CommitComment => seq!["comment"@, "repository"@, "sender"@],
            EventKind::Create => seq!["ref"@, "ref_type"@, "repository"@, "sender"@],
            EventKind::Delete => seq!["ref"@, "ref_type"@, "repository"@, "sender"@],
            EventKind::Deployment => seq!["deployment"@, "repository"@, "sender"@],
            EventKind::DeploymentStatus => seq!["deployment_status"@, "deployment"@, "repository"@, "sender"@],
            EventKind::Fork => seq!["forkee"@, "repository"@, "sender"@],
            EventKind::Gollum => seq!["pages"@, "repository"@, "sender"@],
            EventKind::IssueComment => seq!["action"@, "issue"@, "comment"@, "repository"@, "sender"@],
            EventKind::Issues => seq!["action"@, "issue"@, "repository"@, "sender"@],
            EventKind::Member => seq!["action"@, "member"@, "repository"@, "sender"@],
            EventKind::Membership => seq!["action"@, "scope"@, "member"@, "team"@, "organization"@, "sender"@],
            EventKind::PageBuild => seq!["build"@, "repository"@, "sender"@],
            EventKind::Ping => seq!["zen"@, "hook_id"@, "hook"@],
            EventKind::Public => seq!["repository"@, "sender"@],
            EventKind::PullRequest => seq!["action"@, "number"@, "pull_request"@, "repository"@, "sender"@],
            EventKind::PullRequestReviewComment => seq!["action"@, "comment"@, "pull_request"@, "repository"@, "sender"@],
            EventKind::Push => seq!["ref"@, "before"@, "after"@, "commits"@, "repository"@, "pusher"@],
            EventKind::Release => seq!["action"@, "release"@, "repository"@, "sender"@],
            EventKind::Repository => seq!["action"@, "repository"@, "sender"@],
            EventKind::Status => seq!["sha"@, "state"@, "repository"@, "sender"@],
            EventKind::TeamAdd => seq!["team"@, "repository"@, "sender"@],
            EventKind::Watch => seq!["action"@, "repository"@, "sender"@],
        }
    }

    /// The members that the payload of a delivery of this kind must have.
    pub fn required(self) -> (names: Vec<&'static str>)
        ensures
            names@.len() == self.spec_required().len(),
            forall|i: int| 0 <= i < names@.len() ==> (#[trigger] names@[i])@ == self.spec_required()[i],
    {
        match self {
            EventKind::CommitComment => vec!["comment", "repository", "sender"],
            EventKind::Create => vec!["ref", "ref_type", "repository", "sender"],
            EventKind::Delete => vec!["ref", "ref_type", "repository", "sender"],
            EventKind::Deployment => vec!["deployment", "repository", "sender"],
            EventKind::DeploymentStatus => vec!["deployment_status", "deployment", "repository", "sender"],
            EventKind::Fork => vec!["forkee", "repository", "sender"],
            EventKind::Gollum => vec!["pages", "repository", "sender"],
            EventKind::IssueComment => vec!["action", "issue", "comment", "repository", "sender"],
            EventKind::Issues => vec!["action", "issue", "repository", "sender"],
            EventKind::Member => vec!["action", "member", "repository", "sender"],
            EventKind::Membership => vec!["action", "scope", "member", "team", "organization", "sender"],
            EventKind::PageBuild => vec!["build", "repository", "sender"],
            EventKind::Ping => vec!["zen", "hook_id", "hook"],
            EventKind::Public => vec!["repository", "sender"],
            EventKind::PullRequest => vec!["action", "number", "pull_request", "repository", "sender"],
            EventKind::PullRequestReviewComment => vec!["action", "comment", "pull_request", "repository", "sender"],
            EventKind::Push => vec!["ref", "before", "after", "commits", "repository", "pusher"],
            EventKind::Release => vec!["action", "release", "repository", "sender"],
            EventKind::Repository => vec!["action", "repository", "sender"],
            EventKind::Status => vec!["sha", "state", "repository", "sender"],
            EventKind::TeamAdd => vec!["team", "repository", "sender"],
            EventKind::Watch => vec!["action", "repository", "sender"],
        }
    }
}

/// Whether an object with the members `found` has the shape of a payload
/// of `kind`: every member that the kind requires is there.
pub open spec fn shaped(kind: EventKind, found: Set<Seq<char>>) -> bool {
    forall|i: int|
        0 <= i < kind.spec_required().len() ==> found.contains(#[trigger] kind.spec_required()[i])
}

/// Every known kind is the kind that its name announces: no two kinds
/// share a name.
pub proof fn lemma_kind_is_named(kind: EventKind)
    ensures
        EventKind::named(kind.spec_name()) == Some(kind),
{
    reveal_strlit("commit_comment");
    reveal_strlit("create");
    reveal_strlit("delete");
    reveal_strlit("deployment");
    reveal_strlit("deployment_status");
    reveal_strlit("fork");
    reveal_strlit("gollum");
    reveal_strlit("issue_comment");
    reveal_strlit("issues");
    reveal_strlit("member");
    reveal_strlit("membership");
    reveal_strlit("page_build");
    reveal_strlit("ping");
    reveal_strlit("public");
    reveal_strlit("pull_request");
    reveal_strlit("pull_request_review_comment");
    reveal_strlit("push");
    reveal_strlit("release");
    reveal_strlit("repository");
    reveal_strlit("status");
    reveal_strlit("team_add");
    reveal_strlit("watch");
    // Names of one length differ in their first or second character.
    assert("commit_comment"@.len() == 14 && "commit_comment"@[0] == 'c');
    assert("create"@.len() == 6 && "create"@[0] == 'c');
    assert("delete"@.len() == 6 && "delete"@[0] == 'd');
    assert("deployment"@.len() == 10 && "deployment"@[0] == 'd');
    assert("deployment_status"@.len() == 17 && "deployment_status"@[0] == 'd');
    assert("fork"@.len() == 4 && "fork"@[0] == 'f' && "fork"@[1] == 'o');
    assert("gollum"@.len() == 6 && "gollum"@[0] == 'g');
    assert("issue_comment"@.len() == 13 && "issue_comment"@[0] == 'i');
    assert("issues"@.len() == 6 && "issues"@[0] == 'i');
    assert("member"@.len() == 6 && "member"@[0] == 'm');
    assert("membership"@.len() == 10 && "membership"@[0] == 'm');
    assert("page_build"@.len() == 10 && "page_build"@[0] == 'p');
    assert("ping"@.len() == 4 && "ping"@[0] == 'p' && "ping"@[1] == 'i');
    assert("public"@.len() == 6 && "public"@[0] == 'p');
    assert("pull_request"@.len() == 12 && "pull_request"@[0] == 'p');
    assert("pull_request_review_comment"@.len() == 27 && "pull_request_review_comment"@[0] == 'p');
    assert("push"@.len() == 4 && "push"@[0] == 'p' && "push"@[1] == 'u');
    assert("release"@.len() == 7 && "release"@[0] == 'r');
    assert("repository"@.len() == 10 && "repository"@[0] == 'r');
    assert("status"@.len() == 6 && "status"@[0] == 's');
    assert("team_add"@.len() == 8 && "team_add"@[0] == 't');
    assert("watch"@.len() == 5 && "watch"@[0] == 'w');
}

/// The upper-case form of an ASCII lower-case letter; any other character
/// as it is.
pub open spec fn ascii_upper(c: char) -> char {
    if 'a' <= c <= 'z' {
        ((c as u8) - 32) as u8 as char
    } else {
        c
    }
}

/// Camel case of what is left of a snake-case name, given whether the next
/// character starts a word: underscores go, and the first character of each
/// word goes to upper case.
pub open spec fn camel_from(name: Seq<char>, new_word: bool) -> Seq<char>
    decreases name.len(),
{
    if name.len() == 0 {
        Seq::empty()
    } else if name[0] == '_' {
        camel_from(name.drop_first(), true)
    } else if new_word {
        seq![ascii_upper(name[0])] + camel_from(name.drop_first(), false)
    } else {
        seq![name[0]] + camel_from(name.drop_first(), false)
    }
}

/// The camel-case form of a snake-case name: `pull_request` gives
/// `PullRequest`.
pub open spec fn camel_case(name: Seq<char>) -> Seq<char> {
    camel_from(name, true)
}

/// The patched copy of `payload` for a delivery of the kind `event`: the
/// payload as the one field of an object, under the camel-case name of the
/// kind.
pub open spec fn patched(event: Seq<char>, payload: Seq<char>) -> Seq<char> {
    "{\""@ + camel_case(event) + "\":"@ + payload + "}"@
}

/// What `serde_json` makes of `text`: `None` where it is not one JSON
/// document; else the names of the members of the object that it decodes
/// to, which are none where the document is no object.
pub uninterp spec fn json_members(text: Seq<char>) -> Option<Set<Seq<char>>>;

/// The names of the members of a decoded document; none where it is no
/// object.
pub uninterp spec fn members(tree: serde_json::Value) -> Set<Seq<char>>;

/// The complaint of `serde_json` about a text that is not JSON.
pub uninterp spec fn json_fault(text: Seq<char>) -> ParseError;

/// Whether `text` is one JSON document.
pub open spec fn is_json(text: Seq<char>) -> bool {
    json_members(text) is Some
}

/// Why a payload was not decoded.
#[derive(Clone, Copy, Debug, PartialEq, Eq, Structural)]
pub enum ParseError {
    /// The text is not JSON.
    Syntax,
    /// The text is JSON, but not of the shape of its kind.
    Data,
    /// The text ends in the middle of a document.
    Eof,
    /// The text could not be read.
    Io,
}

/// What a delivery carries.
#[derive(Debug)]
pub enum Event {
    /// A payload of a known kind. `document` is the decoded patched copy:
    /// an object whose one field, named after the kind in camel case, holds
    /// what the sender sent.
    Known { kind: EventKind, document: serde_json::Value },
    /// A payload of a kind that this library does not know, as it came.
    Opaque { raw: String },
}

/// Calls `case::CaseExt::to_camel` on a `str`. The case crate walks the
/// characters once: it drops every underscore, and puts the first character
/// of the name and each character that follows an underscore through
/// `char::to_ascii_uppercase`.
#[verifier::external_body]
fn to_camel(name: &str) -> (camel: String)
    ensures
        camel@ == camel_case(name@),
{
    case::CaseExt::to_camel(name)
}

/// Calls `serde_json::from_str` for a `serde_json::Value`, and
/// `serde_json::Error::classify` on the error where it fails. What comes
/// back depends on the text alone: the tree whose members `json_members`
/// names, or the category of the complaint.
#[verifier::external_body]
fn decode_json(text: &str) -> (decoded: Result<serde_json::Value, ParseError>)
    ensures
        match decoded {
            Ok(tree) => json_members(text@) == Some(members(tree)),
            Err(fault) => json_members(text@) is None && fault == json_fault(text@),
        },
{
    match serde_json::from_str::<serde_json::Value>(text) {
        Ok(tree) => Ok(tree),
        Err(error) => Err(match error.classify() {
            serde_json::error::Category::Io => ParseError::Io,
            serde_json::error::Category::Syntax => ParseError::Syntax,
            serde_json::error::Category::Data => ParseError::Data,
            serde_json::error::Category::Eof => ParseError::Eof,
        }),
    }
}

/// Calls `serde_json::Value::get` with a name. It finds a value exactly
/// where the tree is an object that has a member of that name.
#[verifier::external_body]
fn has_member(tree: &serde_json::Value, name: &str) -> (found: bool)
    ensures
        found == members(*tree).contains(name@),
{
    tree.get(name).is_some()
}

/// Whether the decoded document `tree` has the shape of a payload of
/// `kind`.
pub fn has_shape(kind: EventKind, tree: &serde_json::Value) -> (fits: bool)
    ensures
        fits == shaped(kind, members(*tree)),
{
    let names = kind.required();
    let mut i: usize = 0;
    while i < names.len()
        invariant
            i <= names@.len(),
            names@.len() == kind.spec_required().len(),
            forall|j: int| 0 <= j < names@.len() ==> (#[trigger] names@[j])@ == kind.spec_required()[j],
            forall|j: int|
                0 <= j < i ==> members(*tree).contains(#[trigger] kind.spec_required()[j]),
        decreases names@.len() - i,
    {
        if !has_member(tree, names[i]) {
            assert(!members(*tree).contains(kind.spec_required()[i as int]));
            return false;
        }
        i += 1;
    }
    true
}

/// Writes the patched copy of `payload` for a delivery of the kind `event`.
pub fn patch_payload_json(event: &str, payload: &str) -> (text: String)
    ensures
        text@ == patched(event@, payload@),
{
    let tag = to_camel(event);
    let mut text = "{\"".to_owned();
    text.append(tag.as_str());
    text.append("\":");
    text.append(payload);
    text.append("}");
    text
}

impl Event {
    /// Whether a payload `raw` of the kind `event` can be decoded. Of a
    /// known kind: the payload is JSON, an object with the members that
    /// the kind requires, and its patched copy is JSON too. Of any other
    /// kind: always.
    pub open spec fn decodes(event: Seq<char>, raw: Seq<char>) -> bool {
        EventKind::named(event) matches Some(kind) ==> {
            &&& json_members(raw) matches Some(found)
            &&& shaped(kind, found)
            &&& is_json(patched(event, raw))
        }
    }

    /// Why a payload `raw` of the kind `event` that cannot be decoded is
    /// refused: the complaint about the payload if it is not JSON; else
    /// its shape, if that is not the kind's; else the complaint about the
    /// patched copy.
    pub open spec fn fault(event: Seq<char>, raw: Seq<char>) -> ParseError {
        if json_members(raw) is None {
            json_fault(raw)
        } else if !shaped(EventKind::named(event).unwrap(), json_members(raw).unwrap()) {
            ParseError::Data
        } else {
            json_fault(patched(event, raw))
        }
    }

    /// Whether this is the payload of a delivery of the kind `event` with
    /// the body `raw`: of a known kind, that kind with the decoded patched
    /// copy; of any other, the body as it came.
    pub open spec fn agrees(&self, event: Seq<char>, raw: Seq<char>) -> bool {
        match EventKind::named(event) {
            Some(known) => {
                &&& self matches Event::Known { kind, document }
                &&& kind == known
                &&& json_members(patched(event, raw)) == Some(members(*document))
            },
            None => self matches Event::Opaque { raw: kept } && kept@ == raw,
        }
    }

    /// The kind of this payload, if it is a known one.
    pub open spec fn spec_kind(&self) -> Option<EventKind> {
        match self {
            Event::Known { kind, .. } => Some(*kind),
            Event::Opaque { .. } => None,
        }
    }

    /// The kind of this payload, if it is a known one.
    pub fn kind(&self) -> (kind: Option<EventKind>)
        ensures
            kind == self.spec_kind(),
    {
        match self {
            Event::Known { kind, .. } => Some(*kind),
            Event::Opaque { .. } => None,
        }
    }

    /// Decodes the payload `raw` of a delivery of the kind `event`.
    ///
    /// A payload of a known kind must be JSON by itself and have the shape
    /// of its kind; it is then decoded from its patched copy. A payload of
    /// any other kind is kept as it came.
    pub fn parse(event: &str, raw: &str) -> (parsed: Result<Event, ParseError>)
        ensures
            parsed is Ok <==> Event::decodes(event@, raw@),
            parsed matches Ok(payload) ==> payload.agrees(event@, raw@),
            parsed matches Err(fault) ==> fault == Event::fault(event@, raw@),
    {
        let kind = match EventKind::from_name(event) {
            Some(kind) => kind,
            None => {
                return Ok(Event::Opaque { raw: raw.to_owned() });
            },
        };
        let body = match decode_json(raw) {
            Ok(body) => body,
            Err(fault) => {
                return Err(fault);
            },
        };
        if !has_shape(kind, &body) {
            return Err(ParseError::Data);
        }
        let text = patch_payload_json(event, raw);
        match decode_json(text.as_str()) {
            Ok(document) => Ok(Event::Known { kind, document }),
            Err(fault) => Err(fault),
        }
    }
}

} // verus!
