//! The commands that are sent to the agent: one JSON object on one line each.

use vstd::prelude::*;
use vstd::string::*;

use crate::json::{Json, JsonView, READ_DEPTH, json_text, lemma_members_of, parsed_json};
use crate::text::concat2;

verus! {

/// One item of a user message. A path stands as it is shown to a reader.
#[derive(Debug)]
pub enum UserInput {
    Text { text: String },
    Image { url: String },
    LocalImage { path: String },
    Skill { name: String, path: String },
    Mention { name: String, path: String },
}

/// How an item reads in a prompt: a text as it is, the others as a note in
/// square brackets.
pub open spec fn item_text(item: UserInput) -> Seq<char> {
    match item {
        UserInput::Text { text } => text@,
        UserInput::Image { url } => "[image: "@ + url@ + "]"@,
        UserInput::LocalImage { path } => "[image file: "@ + path@ + "]"@,
        UserInput::Skill { name, path } => "[skill: "@ + name@ + " at "@ + path@ + "]"@,
        UserInput::Mention { name, path } => "[mention: "@ + name@ + " at "@ + path@ + "]"@,
    }
}

/// How a user message reads in a prompt: its items, with a line break between
/// each and the next.
pub open spec fn message_text(items: Seq<UserInput>) -> Seq<char>
    decreases items.len(),
{
    if items.len() == 0 {
        Seq::empty()
    } else if items.len() == 1 {
        item_text(items[0])
    } else {
        message_text(items.drop_last()) + "\n"@ + item_text(items.last())
    }
}

fn note(label: &str, what: &str) -> (result: String)
    ensures
        result@ == label@ + what@ + "]"@,
{
    let mut out = concat2(label, what);
    out.append("]");
    out
}

fn note_at(label: &str, name: &str, path: &str) -> (result: String)
    ensures
        result@ == label@ + name@ + " at "@ + path@ + "]"@,
{
    let mut out = concat2(label, name);
    out.append(" at ");
    out.append(path);
    out.append("]");
    out
}

/// How an item reads in a prompt.
pub fn user_item_text(item: &UserInput) -> (result: String)
    ensures
        result@ == item_text(*item),
{
    match item {
        UserInput::Text { text } => text.clone(),
        UserInput::Image { url } => note("[image: ", url.as_str()),
        UserInput::LocalImage { path } => note("[image file: ", path.as_str()),
        UserInput::Skill { name, path } => note_at("[skill: ", name.as_str(), path.as_str()),
        UserInput::Mention { name, path } => note_at("[mention: ", name.as_str(), path.as_str()),
    }
}

/// How a user message reads in a prompt.
pub fn user_input_text(input: &Vec<UserInput>) -> (result: String)
    ensures
        result@ == message_text(input@),
{
    let mut out = String::new();
    let mut i: usize = 0;
    while i < input.len()
        invariant
            i <= input.len(),
            out@ == message_text(input@.take(i as int)),
        decreases input.len() - i,
    {
        if i > 0 {
            out.append("\n");
        }
        let part = user_item_text(&input[i]);
        out.append(part.as_str());
        proof {
            assert(input@.take(i + 1).drop_last() =~= input@.take(i as int));
            assert(out@ =~= message_text(input@.take(i + 1)));
        }
        i = i + 1;
    }
    assert(input@.take(input@.len() as int) =~= input@);
    out
}

/// The command that begins a run with a message.
pub open spec fn prompt_json(message: Seq<char>) -> JsonView {
    JsonView::Object(
        map!["type"@ => JsonView::Str("prompt"@), "message"@ => JsonView::Str(message)],
    )
}

/// The command that breaks off the run.
pub open spec fn abort_json() -> JsonView {
    JsonView::Object(map!["type"@ => JsonView::Str("abort"@)])
}

/// The command that begins a run with a message.
pub fn prompt_command(message: String) -> (command: Json)
    ensures
        command@ == prompt_json(message@),
{
    let mut pairs: Vec<(String, Json)> = Vec::new();
    pairs.push(("type".to_owned(), Json::Str("prompt".to_owned())));
    pairs.push(("message".to_owned(), Json::Str(message)));
    proof {
        let none = Seq::<(String, Json)>::empty();
        lemma_members_of(none, pairs@[0]);
        lemma_members_of(none.push(pairs@[0]), pairs@[1]);
        assert(pairs@ =~= none.push(pairs@[0]).push(pairs@[1]));
        assert(pairs@[0].1@ == JsonView::Str("prompt"@));
        assert(pairs@[1].1@ == JsonView::Str(message@));
    }
    Json::Object(pairs)
}

/// The command that breaks off the run.
pub fn abort_command() -> (command: Json)
    ensures
        command@ == abort_json(),
{
    let mut pairs: Vec<(String, Json)> = Vec::new();
    pairs.push(("type".to_owned(), Json::Str("abort".to_owned())));
    proof {
        let none = Seq::<(String, Json)>::empty();
        lemma_members_of(none, pairs@[0]);
        assert(pairs@ =~= none.push(pairs@[0]));
        assert(pairs@[0].1@ == JsonView::Str("abort"@));
    }
    Json::Object(pairs)
}

/// The line that carries a command.
pub open spec fn line_of(command: JsonView) -> Seq<char> {
    json_text(command) + "\n"@
}

/// The line that carries a command: its JSON text and a line break, which is
/// the only one, so that a command is one line and no more. Where all numbers
/// are integers, reading the line without its break gives the command back.
pub fn command_line(command: &Json) -> (line: String)
    ensures
        line@ == line_of(command@),
        line@.last() == '\n',
        !line@.drop_last().contains('\n'),
        command@.is_integral(READ_DEPTH as nat) ==> parsed_json(line@.drop_last()) == Some(
            command@,
        ),
{
    let mut line = command.to_text();
    let ghost body = line@;
    line.append("\n");
    proof {
        reveal_strlit("\n");
        assert(line@.drop_last() =~= body);
    }
    line
}

} // verus!
