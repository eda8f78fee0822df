//! What the service answers, and the JSON object that carries the answer.

use vstd::prelude::*;
use crate::holiday::{HolidayReduced, ReducedView};

verus! {

/// The answer to one request. Both kinds travel as a JSON object with
/// status 200; a caller tells them apart by the member `error`.
#[derive(Clone, Debug, PartialEq, Eq)]
pub enum Reply {
    /// The request could not be answered; `message` says why.
    Error { message: String },
    /// The holiday that was found.
    Found(HolidayReduced),
}

/// The text of a [`Reply`].
pub enum ReplyView {
    Error { message: Seq<char> },
    Found(ReducedView),
}

impl View for Reply {
    type V = ReplyView;

    open spec fn view(&self) -> ReplyView {
        match *self {
            Reply::Error { message } => ReplyView::Error { message: message@ },
            Reply::Found(holiday) => ReplyView::Found(holiday@),
        }
    }
}

/// The value of one member of a reply's JSON object.
#[derive(Clone, Debug, PartialEq, Eq)]
pub enum Scalar {
    Flag(bool),
    Text(String),
}

/// The text of a [`Scalar`].
pub enum ScalarView {
    Flag(bool),
    Text(Seq<char>),
}

impl View for Scalar {
    type V = ScalarView;

    open spec fn view(&self) -> ScalarView {
        match *self {
            Scalar::Flag(flag) => ScalarView::Flag(flag),
            Scalar::Text(text) => ScalarView::Text(text@),
        }
    }
}

/// One member of a reply's JSON object.
#[derive(Clone, Debug, PartialEq, Eq)]
pub struct Member {
    pub name: String,
    pub value: Scalar,
}

/// The text of a [`Member`].
pub struct MemberView {
    pub name: Seq<char>,
    pub value: ScalarView,
}

impl View for Member {
    type V = MemberView;

    open spec fn view(&self) -> MemberView {
        MemberView { name: self.name@, value: self.value@ }
    }
}

/// A member whose value is text.
pub open spec fn text_member(name: Seq<char>, text: Seq<char>) -> MemberView {
    MemberView { name, value: ScalarView::Text(text) }
}

impl ReplyView {
    /// The members of the JSON object that carries this reply, all of them:
    /// `{"error": true, "message": ..}` for an error,
    /// `{"name": .., "desc": .., "date": ..}` for a holiday. They stand in
    /// the order in which they are listed here; what the object says does
    /// not depend on it.
    pub open spec fn members(self) -> Seq<MemberView> {
        match self {
            ReplyView::Error { message } => seq![
                MemberView { name: "error"@, value: ScalarView::Flag(true) },
                text_member("message"@, message),
            ],
            ReplyView::Found(holiday) => seq![
                text_member("name"@, holiday.name),
                text_member("desc"@, holiday.desc),
                text_member("date"@, holiday.date),
            ],
        }
    }
}

/// The texts of a list of members, in order.
pub open spec fn member_views(members: Seq<Member>) -> Seq<MemberView> {
    members.map_values(|member: Member| member@)
}

fn text_of(name: &str, text: &str) -> (member: Member)
    ensures
        member@ == text_member(name@, text@),
{
    Member { name: name.to_owned(), value: Scalar::Text(text.to_owned()) }
}

impl Reply {
    /// An error reply with the given message.
    pub fn error(message: &str) -> (reply: Reply)
        ensures
            reply@ == (ReplyView::Error { message: message@ }),
    {
        Reply::Error { message: message.to_owned() }
    }

    /// The members of the JSON object that carries this reply.
    pub fn members(&self) -> (members: Vec<Member>)
        ensures
            member_views(members@) == self@.members(),
    {
        let mut members: Vec<Member> = Vec::new();
        match self {
            Reply::Error { message } => {
                members.push(Member { name: "error".to_owned(), value: Scalar::Flag(true) });
                members.push(text_of("message", message.as_str()));
            },
            Reply::Found(holiday) => {
                members.push(text_of("name", holiday.name()));
                members.push(text_of("desc", holiday.desc()));
                members.push(text_of("date", holiday.date()));
            },
        }
        members
    }
}

/// No name occurs twice among a reply's members, so the members form a JSON
/// object in which every one of them can be read.
pub proof fn member_names_differ(reply: ReplyView, i: int, j: int)
    requires
        0 <= i < j < reply.members().len(),
    ensures
        reply.members()[i].name != reply.members()[j].name,
{
    reveal_strlit("error");
    reveal_strlit("message");
    reveal_strlit("name");
    reveal_strlit("desc");
    reveal_strlit("date");
    assert("error"@.len() != "message"@.len());
    assert("name"@[0] != "desc"@[0]);
    assert("name"@[0] != "date"@[0]);
    assert("desc"@[1] != "date"@[1]);
}

/// An error reply says `"error": true`; a holiday has no member of that
/// name. This is how a caller tells the two apart.
pub proof fn error_member_marks_errors(reply: ReplyView)
    ensures
        reply is Error <==> exists|i: int|
            0 <= i < reply.members().len() && #[trigger] reply.members()[i].name == "error"@,
        reply is Error ==> reply.members()[0] == (MemberView {
            name: "error"@,
            value: ScalarView::Flag(true),
        }),
{
    reveal_strlit("error");
    reveal_strlit("name");
    reveal_strlit("desc");
    reveal_strlit("date");
    if reply is Error {
        assert(reply.members()[0].name == "error"@);
    } else {
        assert("name"@.len() != "error"@.len());
        assert("desc"@.len() != "error"@.len());
        assert("date"@.len() != "error"@.len());
    }
}

} // verus!
