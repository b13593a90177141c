//! Chat records, the roles that speak them and who may read them.

use vstd::prelude::*;
use vstd::std_specs::cmp::PartialEqSpecImpl;
use vstd::string::*;

use crate::player::PlayerData;
use crate::text::{trim_text, trimmed};

verus! {

/// The name under which the game itself speaks.
pub const SYSTEM_NAME: &'static str = "System";

/// The name of the assistant that advises each player in private.
pub const ASSISTANT_NAME: &'static str = "Stellaris";

/// Who speaks a chat record. The number is the entity of the player that the
/// record belongs to.
#[derive(Debug, Default)]
pub enum Role {
    #[default]
    Nobody,
    System(u64),
    Transparent(u64),
    Assistant(u64),
    Actor(u64, String),
}

impl Role {
    /// Two roles of the same kind, for the same entity and under the same
    /// name.
    pub open spec fn same(&self, other: &Role) -> bool {
        match (*self, *other) {
            (Role::Nobody, Role::Nobody) => true,
            (Role::System(a), Role::System(b)) => a == b,
            (Role::Transparent(a), Role::Transparent(b)) => a == b,
            (Role::Assistant(a), Role::Assistant(b)) => a == b,
            (Role::Actor(a, n), Role::Actor(b, m)) => a == b && n@ == m@,
            _ => false,
        }
    }

    /// Whether the player `entity` may read what this role says. Only what
    /// an assistant tells another player is hidden.
    pub open spec fn visible_to(&self, entity: u64) -> bool {
        match *self {
            Role::Assistant(owner) => owner == entity,
            _ => true,
        }
    }

    /// The name that is printed in front of what the role says.
    pub open spec fn label(&self) -> Seq<char> {
        match *self {
            Role::Nobody => Seq::empty(),
            Role::Transparent(_) => Seq::empty(),
            Role::System(_) => SYSTEM_NAME@,
            Role::Assistant(_) => ASSISTANT_NAME@,
            Role::Actor(_, name) => name@,
        }
    }

    /// The role of a player that speaks under `name`, cut of the white space
    /// around it.
    pub fn actor(entity: u64, name: &str) -> (role: Role)
        ensures
            role matches Role::Actor(owner, text) && owner == entity && text@ == trimmed(name@),
    {
        Role::Actor(entity, String::from_str(trim_text(name)))
    }

    /// Whether the player `entity` may read what this role says.
    pub fn is_visible_to(&self, entity: u64) -> (visible: bool)
        ensures
            visible == self.visible_to(entity),
    {
        match self {
            Role::Assistant(owner) => *owner == entity,
            _ => true,
        }
    }

    /// The printed name of the role.
    pub fn to_string(&self) -> (text: String)
        ensures
            text@ == self.label(),
    {
        match self {
            Role::Nobody => String::new(),
            Role::Transparent(_) => String::new(),
            Role::System(_) => String::from_str(SYSTEM_NAME),
            Role::Assistant(_) => String::from_str(ASSISTANT_NAME),
            Role::Actor(_, name) => name.clone(),
        }
    }
}

impl Clone for Role {
    fn clone(&self) -> (copy: Role)
        ensures
            copy == *self,
    {
        match self {
            Role::Nobody => Role::Nobody,
            Role::System(entity) => Role::System(*entity),
            Role::Transparent(entity) => Role::Transparent(*entity),
            Role::Assistant(entity) => Role::Assistant(*entity),
            Role::Actor(entity, name) => Role::Actor(*entity, name.clone()),
        }
    }
}

impl PartialEq for Role {
    fn eq(&self, other: &Role) -> (equal: bool) {
        match (self, other) {
            (Role::Nobody, Role::Nobody) => true,
            (Role::System(a), Role::System(b)) => *a == *b,
            (Role::Transparent(a), Role::Transparent(b)) => *a == *b,
            (Role::Assistant(a), Role::Assistant(b)) => *a == *b,
            (Role::Actor(a, n), Role::Actor(b, m)) => *a == *b && *n == *m,
            _ => false,
        }
    }
}

impl PartialEqSpecImpl for Role {
    open spec fn obeys_eq_spec() -> bool {
        true
    }

    open spec fn eq_spec(&self, other: &Role) -> bool {
        self.same(other)
    }
}

impl Eq for Role {

}

/// What a round of chat is about, and the number of the turn.
#[derive(Debug, Clone, Copy, PartialEq, Eq, Structural)]
pub enum ChatKind {
    Trade(usize),
    Duel(usize),
}

/// The tag that sets the identities of chat records apart from other
/// identities.
#[derive(Debug, Default, Clone, Copy, PartialEq, Eq)]
pub struct ChatRecordId;

/// One entry of a conversation. Two records are equal when their identities
/// are, whatever they say.
#[derive(Debug)]
pub struct ChatRecord {
    pub id: usize,
    pub role: Role,
    pub content: String,
}

/// Calls `uid::Id::new`, which counts a process-wide counter up from one, and
/// reads the number with `get`. The number is never zero. The call panics
/// once the counter has run through every value of a machine word.
#[verifier::external_body]
fn fresh_id() -> (id: usize)
    ensures
        id != 0,
{
    uid::Id::<ChatRecordId>::new().get()
}

impl ChatRecord {
    /// A record under a new identity.
    pub fn new(role: Role, content: &str) -> (record: ChatRecord)
        ensures
            record.role == role,
            record.content@ == content@,
            record.id != 0,
    {
        let id = fresh_id();
        ChatRecord { id, role, content: String::from_str(content) }
    }

    /// The line that shows the record: the speaker, a colon, and what was
    /// said without the white space around it.
    pub open spec fn line(&self) -> Seq<char> {
        self.role.label() + ": "@ + trimmed(self.content@)
    }

    /// The record as one line of text.
    pub fn to_string(&self) -> (text: String)
        ensures
            text@ == self.line(),
    {
        let mut text = self.role.to_string();
        text.append(": ");
        text.append(trim_text(self.content.as_str()));
        text
    }
}

impl Clone for ChatRecord {
    fn clone(&self) -> (copy: ChatRecord)
        ensures
            copy == *self,
    {
        ChatRecord { id: self.id, role: self.role.clone(), content: self.content.clone() }
    }
}

impl PartialEq for ChatRecord {
    fn eq(&self, other: &ChatRecord) -> (equal: bool) {
        self.id == other.id
    }
}

impl PartialEqSpecImpl for ChatRecord {
    open spec fn obeys_eq_spec() -> bool {
        true
    }

    open spec fn eq_spec(&self, other: &ChatRecord) -> bool {
        self.id == other.id
    }
}

impl Eq for ChatRecord {

}

/// The test that a record may be read by the player `entity`.
pub open spec fn visible(entity: u64) -> spec_fn(ChatRecord) -> bool {
    |record: ChatRecord| record.role.visible_to(entity)
}

/// The part of a conversation that `player` may read: all of it but what an
/// assistant told another player, in the same order.
pub fn observe(player: &PlayerData, history: &Vec<ChatRecord>) -> (seen: Vec<ChatRecord>)
    ensures
        seen@ == history@.filter(visible(player.entity)),
        forall|i: int| 0 <= i < seen.len() ==> (#[trigger] seen[i]).role.visible_to(player.entity),
        forall|i: int|
            0 <= i < seen.len() ==> !(#[trigger] seen[i].role matches Role::Assistant(owner)
                && owner != player.entity),
{
    let mut seen: Vec<ChatRecord> = Vec::new();
    let mut index: usize = 0;
    while index < history.len()
        invariant
            index <= history.len(),
            seen@ == history@.take(index as int).filter(visible(player.entity)),
        decreases history.len() - index,
    {
        proof {
            history@.lemma_take_succ_push(index as int);
            history@.take(index as int).lemma_filter_push(
                history@[index as int],
                visible(player.entity),
            );
        }
        if history[index].role.is_visible_to(player.entity) {
            seen.push(history[index].clone());
        }
        index += 1;
    }
    proof {
        broadcast use vstd::seq_lib::group_filter_ensures;

        history@.lemma_take_len();
    }
    seen
}

} // verus!
