//! What an actor backed by a text-completion service needs beside the
//! service itself: the shape of an answer and the prompt that a conversation
//! makes.

use vstd::prelude::*;
use vstd::string::*;

use crate::card::Card;
use crate::chat::{ChatRecord, Role, ASSISTANT_NAME, SYSTEM_NAME};
use crate::config::NUM_CHAT_ROUNDS;
use crate::inventory::Inventory;
use crate::player::PlayerTimer;
use crate::text::{contains_text, occurs_in, replace_text, replaced, trim_text, trimmed};

verus! {

/// How the service picks the next token.
#[derive(Debug, Default, Clone, Copy, PartialEq, Eq, Structural)]
pub enum SamplerKind {
    #[default]
    Nucleus,
    Typical,
}

/// One completion that the service offers.
#[derive(Debug, Default)]
pub struct Choice {
    pub index: u32,
    pub text: String,
}

/// The answer of the service to a completion request.
#[derive(Debug, Default)]
pub struct CompletionResponse {
    pub choices: Vec<Choice>,
    pub model: String,
}

impl Clone for Choice {
    fn clone(&self) -> (copy: Choice)
        ensures
            copy == *self,
    {
        Choice { index: self.index, text: self.text.clone() }
    }
}

impl Clone for CompletionResponse {
    fn clone(&self) -> (copy: CompletionResponse)
        ensures
            copy.choices@ == self.choices@,
            copy.model == self.model,
    {
        let mut choices: Vec<Choice> = Vec::new();
        let mut index: usize = 0;
        while index < self.choices.len()
            invariant
                index <= self.choices.len(),
                choices@ == self.choices@.take(index as int),
            decreases self.choices.len() - index,
        {
            choices.push(self.choices[index].clone());
            index += 1;
        }
        CompletionResponse { choices, model: self.model.clone() }
    }
}

impl CompletionResponse {
    /// The text of the first choice, or nothing if there is none.
    pub open spec fn first_text(&self) -> Seq<char> {
        if self.choices@.len() > 0 {
            self.choices@[0].text@
        } else {
            Seq::empty()
        }
    }

    /// The text that the model wrote: that of the first choice, or the empty
    /// text if the answer holds no choice.
    pub fn model_text(&self) -> (text: String)
        ensures
            text@ == self.first_text(),
    {
        if self.choices.len() > 0 {
            self.choices[0].text.clone()
        } else {
            String::new()
        }
    }
}

/// What one record says, with Windows line ends made plain and the white
/// space around it cut.
pub open spec fn cleaned(content: Seq<char>) -> Seq<char> {
    trimmed(replaced(content, "\r\n"@, "\n"@))
}

/// The story after one more record. A record of the role that spoke last
/// continues on a new line; any other starts a paragraph under the name of
/// its role, marked where the assistant speaks.
pub open spec fn story_with(text: Seq<char>, last: Role, record: ChatRecord) -> Seq<char> {
    if record.role.same(&last) {
        text + "\n"@ + cleaned(record.content@)
    } else if record.role is Assistant {
        text + "\n\n"@ + record.role.label() + " (AI): "@ + cleaned(record.content@)
    } else {
        text + "\n\n"@ + record.role.label() + ": "@ + cleaned(record.content@)
    }
}

/// The role that spoke last in a conversation; nobody where it is empty.
pub open spec fn last_role(records: Seq<ChatRecord>) -> Role {
    if records.len() == 0 {
        Role::Nobody
    } else {
        records.last().role
    }
}

/// A conversation written out as one text.
pub open spec fn story(records: Seq<ChatRecord>) -> Seq<char>
    decreases records.len(),
{
    if records.len() == 0 {
        Seq::empty()
    } else {
        story_with(story(records.drop_last()), last_role(records.drop_last()), records.last())
    }
}

/// Writes a conversation out as one text.
pub fn prompt_story(records: &Vec<ChatRecord>) -> (text: String)
    ensures
        text@ == story(records@),
{
    let mut text = String::new();
    let mut last = Role::Nobody;
    let mut index: usize = 0;
    while index < records.len()
        invariant
            index <= records.len(),
            text@ == story(records@.take(index as int)),
            last == last_role(records@.take(index as int)),
        decreases records.len() - index,
    {
        let record = &records[index];
        proof {
            reveal_strlit("\r\n");
            assert(records@.take(index + 1).drop_last() =~= records@.take(index as int));
        }
        let plain = replace_text(record.content.as_str(), "\r\n", "\n");
        let content = trim_text(plain.as_str());
        if record.role == last {
            text.append("\n");
            text.append(content);
        } else {
            let name = record.role.to_string();
            text.append("\n\n");
            text.append(name.as_str());
            match record.role {
                Role::Assistant(_) => {
                    text.append(" (AI): ");
                },
                _ => {
                    text.append(": ");
                },
            }
            text.append(content);
        }
        last = record.role.clone();
        index += 1;
    }
    assert(records@.take(index as int) =~= records@);
    text
}

/// The story of a conversation, followed by the name of the role that is to
/// speak next and a colon.
pub fn prompt_role(records: &Vec<ChatRecord>, role: &Role) -> (text: String)
    ensures
        text@ == story(records@) + "\n\n"@ + role.label() + ":"@,
{
    let mut text = prompt_story(records);
    let name = role.to_string();
    text.append("\n\n");
    text.append(name.as_str());
    text.append(":");
    text
}

/// The story of a conversation, followed by `prefix`.
pub fn prompt_prefix(records: &Vec<ChatRecord>, prefix: &str) -> (text: String)
    ensures
        text@ == story(records@) + prefix@,
{
    let mut text = prompt_story(records);
    text.append(prefix);
    text
}

/// The story of a conversation without empty lines between its paragraphs
/// and without white space around it.
pub fn prompt_compact(records: &Vec<ChatRecord>) -> (text: String)
    ensures
        text@ == trimmed(replaced(story(records@), "\n\n"@, "\n"@)),
{
    let story = prompt_story(records);
    proof {
        reveal_strlit("\n\n");
    }
    let dense = replace_text(story.as_str(), "\n\n", "\n");
    String::from_str(trim_text(dense.as_str()))
}

/// Whether a record with the identity `id` is among the records.
pub open spec fn knows(records: Seq<ChatRecord>, id: usize) -> bool {
    exists|index: int| 0 <= index < records.len() && (#[trigger] records[index]).id == id
}

/// The memory of an actor after it has been shown a history: every record
/// of the history that it does not hold yet, by its identity, is appended in
/// the order of the history.
pub open spec fn absorbed(memory: Seq<ChatRecord>, history: Seq<ChatRecord>) -> Seq<ChatRecord>
    decreases history.len(),
{
    if history.len() == 0 {
        memory
    } else if knows(memory, history[0].id) {
        absorbed(memory, history.drop_first())
    } else {
        absorbed(memory.push(history[0]), history.drop_first())
    }
}

/// Whether a record with the identity `id` is among the records.
pub fn remembers(memory: &Vec<ChatRecord>, id: usize) -> (known: bool)
    ensures
        known == knows(memory@, id),
{
    let mut index: usize = 0;
    while index < memory.len()
        invariant
            index <= memory.len(),
            forall|at: int| 0 <= at < index ==> (#[trigger] memory@[at]).id != id,
        decreases memory.len() - index,
    {
        if memory[index].id == id {
            return true;
        }
        index += 1;
    }
    false
}

/// Takes into the memory of an actor what a history holds that is new to it.
pub fn absorb(memory: &mut Vec<ChatRecord>, history: &Vec<ChatRecord>)
    ensures
        final(memory)@ == absorbed(old(memory)@, history@),
{
    let mut index: usize = 0;
    assert(history@.skip(0) =~= history@);
    while index < history.len()
        invariant
            index <= history.len(),
            absorbed(memory@, history@.skip(index as int)) == absorbed(old(memory)@, history@),
        decreases history.len() - index,
    {
        proof {
            assert(history@.skip(index as int).drop_first() =~= history@.skip(index + 1));
        }
        if !remembers(memory, history[index].id) {
            memory.push(history[index].clone());
        }
        index += 1;
    }
}

/// Whether a turn of chat is the first of its side.
pub fn opens_chat(round: usize) -> (first: bool)
    ensures
        first == (round == 0 || round == 1),
{
    round == 0 || round == 1
}

/// Whether a turn of chat is the last of its side.
pub fn closes_chat(round: usize) -> (last: bool)
    ensures
        last == (round == 2 * (NUM_CHAT_ROUNDS - 1) || round == 2 * (NUM_CHAT_ROUNDS - 1) + 1),
{
    round == (NUM_CHAT_ROUNDS - 1) * 2 || round == (NUM_CHAT_ROUNDS - 1) * 2 + 1
}

/// Whether a player is to be told that its time runs out: two duels or
/// fewer are left to it.
pub fn is_urgent(timer: &PlayerTimer) -> (urgent: bool)
    ensures
        urgent == (timer.0 <= 2),
{
    timer.0 <= 2
}

/// Whether an answer to a contract says yes.
pub fn says_yes(content: &str) -> (yes: bool)
    ensures
        yes == occurs_in("Yes"@, content@),
{
    contains_text(content, "Yes")
}

/// The card that a name stands for.
pub open spec fn card_of(name: Seq<char>) -> Option<Card> {
    if name == "Rock"@ {
        Some(Card::Rock)
    } else if name == "Paper"@ {
        Some(Card::Paper)
    } else if name == "Scissors"@ {
        Some(Card::Scissors)
    } else {
        None
    }
}

/// The card that a name stands for, if it is the name of a card.
pub fn card_named(name: &str) -> (card: Option<Card>)
    ensures
        card == card_of(name@),
{
    let name = String::from_str(name);
    if name == String::from_str("Rock") {
        Some(Card::Rock)
    } else if name == String::from_str("Paper") {
        Some(Card::Paper)
    } else if name == String::from_str("Scissors") {
        Some(Card::Scissors)
    } else {
        None
    }
}

/// The kinds of card that an inventory holds, each once, in the order rock,
/// paper, scissors.
pub open spec fn kinds_of(inventory: Inventory) -> Seq<Card> {
    (if inventory.rock > 0 {
        seq![Card::Rock]
    } else {
        Seq::empty()
    }) + (if inventory.paper > 0 {
        seq![Card::Paper]
    } else {
        Seq::empty()
    }) + (if inventory.scissors > 0 {
        seq![Card::Scissors]
    } else {
        Seq::empty()
    })
}

/// The kinds of card that a player can draw.
pub fn offered_kinds(inventory: &Inventory) -> (kinds: Vec<Card>)
    ensures
        kinds@ == kinds_of(*inventory),
{
    let mut kinds: Vec<Card> = Vec::new();
    if inventory.rock > 0 {
        kinds.push(Card::Rock);
    }
    if inventory.paper > 0 {
        kinds.push(Card::Paper);
    }
    if inventory.scissors > 0 {
        kinds.push(Card::Scissors);
    }
    kinds
}

/// The texts of a list of words.
pub open spec fn texts(words: Seq<String>) -> Seq<Seq<char>> {
    words.map_values(|word: String| word@)
}

/// The words at which every completion stops: the names of the assistant
/// and of the system and the usual names of speakers, each with a colon.
pub open spec fn common_stops() -> Seq<Seq<char>> {
    seq![
        ASSISTANT_NAME@ + ":"@,
        SYSTEM_NAME@ + ":"@,
        "\nUser:"@,
        "\nQ:"@,
        "\nAssistant:"@,
        "\nAI:"@,
    ]
}

/// The words that keep the model from speaking on as the player itself.
pub open spec fn player_stops(name: Seq<char>) -> Seq<Seq<char>> {
    seq!["\n"@ + name, "\n*"@ + name, "\n**"@ + name, name + ":"@]
}

/// The words that keep the model from speaking for the opponent.
pub open spec fn opponent_stops(name: Seq<char>) -> Seq<Seq<char>> {
    seq!["\n"@ + name, "\n*"@ + name, "\n**"@ + name, "\n("@ + name, name + ":"@]
}

/// The words at which a completion stops: those asked for, the common ones,
/// and those for the player and the opponent where they are named.
pub open spec fn stop_list(
    extra: Seq<Seq<char>>,
    player: Option<Seq<char>>,
    opponent: Option<Seq<char>>,
) -> Seq<Seq<char>> {
    extra + common_stops() + (match player {
        Some(name) => player_stops(name),
        None => Seq::empty(),
    }) + (match opponent {
        Some(name) => opponent_stops(name),
        None => Seq::empty(),
    })
}

/// The text of an optional name.
pub open spec fn text_of(name: Option<&str>) -> Option<Seq<char>> {
    match name {
        Some(name) => Some(name@),
        None => None,
    }
}

/// A template with every occurrence of the placeholder `name`, written in
/// braces, replaced by `value`.
pub open spec fn filled(template: Seq<char>, name: Seq<char>, value: Seq<char>) -> Seq<char> {
    replaced(template, "{"@ + name + "}"@, value)
}

/// Puts `value` wherever the template names the placeholder `name` in
/// braces.
pub fn fill(template: &str, name: &str, value: &str) -> (text: String)
    ensures
        text@ == filled(template@, name@, value@),
{
    let mut mark = joined("{", name);
    mark.append("}");
    proof {
        reveal_strlit("{");
        reveal_strlit("}");
    }
    replace_text(template, mark.as_str(), value)
}

/// Two texts, one after the other.
fn joined(first: &str, second: &str) -> (text: String)
    ensures
        text@ == first@ + second@,
{
    let mut text = String::from_str(first);
    text.append(second);
    text
}

/// Appends a word to a list of words.
fn push_word(words: &mut Vec<String>, word: String)
    ensures
        texts(final(words)@) == texts(old(words)@).push(word@),
{
    words.push(word);
    assert(texts(words@) =~= texts(old(words)@).push(word@));
}

/// The words at which a completion stops.
pub fn stop_words(extra: &Vec<String>, player: Option<&str>, opponent: Option<&str>) -> (words:
    Vec<String>)
    ensures
        texts(words@) == stop_list(texts(extra@), text_of(player), text_of(opponent)),
{
    let mut words: Vec<String> = Vec::new();
    let mut index: usize = 0;
    while index < extra.len()
        invariant
            index <= extra.len(),
            texts(words@) == texts(extra@).take(index as int),
        decreases extra.len() - index,
    {
        push_word(&mut words, extra[index].clone());
        assert(texts(extra@).take(index + 1) =~= texts(extra@).take(index as int).push(
            extra@[index as int]@,
        ));
        index += 1;
    }
    assert(texts(extra@).take(index as int) =~= texts(extra@));
    push_word(&mut words, joined(ASSISTANT_NAME, ":"));
    push_word(&mut words, joined(SYSTEM_NAME, ":"));
    push_word(&mut words, String::from_str("\nUser:"));
    push_word(&mut words, String::from_str("\nQ:"));
    push_word(&mut words, String::from_str("\nAssistant:"));
    push_word(&mut words, String::from_str("\nAI:"));
    assert(texts(words@) =~= texts(extra@) + common_stops());
    if let Some(name) = player {
        push_word(&mut words, joined("\n", name));
        push_word(&mut words, joined("\n*", name));
        push_word(&mut words, joined("\n**", name));
        push_word(&mut words, joined(name, ":"));
    }
    assert(texts(words@) =~= texts(extra@) + common_stops() + (match text_of(player) {
        Some(name) => player_stops(name),
        None => Seq::empty(),
    }));
    if let Some(name) = opponent {
        push_word(&mut words, joined("\n", name));
        push_word(&mut words, joined("\n*", name));
        push_word(&mut words, joined("\n**", name));
        push_word(&mut words, joined("\n(", name));
        push_word(&mut words, joined(name, ":"));
    }
    assert(texts(words@) =~= stop_list(texts(extra@), text_of(player), text_of(opponent)));
    words
}

} // verus!
