//! What is sent to the agent, stated of the items of the user message and of
//! the text that comes out.

use vstd::prelude::*;

use crate::command::{
    UserInput, abort_command, command_line, item_text, message_text, prompt_command,
    user_input_text, user_item_text,
};
use crate::json::{Json, json_text, parsed_json};
use crate::laws::law_message_text_joins;
use crate::laws::values::text_at;
use crate::text::decimal;
use crate::turn::{TurnOpening, open_turn};

verus! {

/// The prompt of a message that is one text is that text, character for
/// character.
pub proof fn law_a_text_is_sent_verbatim(input: &Vec<UserInput>, text: String, prompt: String)
    requires
        call_ensures(user_input_text, (input,), prompt),
        input@.len() == 1,
        input@[0] == (UserInput::Text { text }),
    ensures
        prompt@ == text@,
{
}

/// What stands before an item in a prompt: the items before it, and a line
/// break where there are any.
pub open spec fn before_item(items: Seq<UserInput>, i: int) -> Seq<char> {
    if i == 0 {
        Seq::empty()
    } else {
        message_text(items.take(i)) + seq!['\n']
    }
}

/// What stands behind an item in a prompt: a line break and the items behind
/// it, where there are any.
pub open spec fn behind_item(items: Seq<UserInput>, i: int) -> Seq<char> {
    if i == items.len() - 1 {
        Seq::empty()
    } else {
        seq!['\n'] + message_text(items.skip(i + 1))
    }
}

/// In a message of any number of items, each text stands in the prompt
/// unchanged, with a line break towards the items before it and behind it.
pub proof fn law_texts_stand_unchanged(
    input: &Vec<UserInput>,
    i: int,
    text: String,
    prompt: String,
)
    requires
        call_ensures(user_input_text, (input,), prompt),
        0 <= i < input@.len(),
        input@[i] == (UserInput::Text { text }),
    ensures
        prompt@ == before_item(input@, i) + text@ + behind_item(input@, i),
{
    law_items_stand_in_order(input@, i);
}

/// Every item stands in the prompt as it reads, with a line break towards the
/// items before it and behind it.
pub proof fn law_items_stand_in_order(items: Seq<UserInput>, i: int)
    requires
        0 <= i < items.len(),
    ensures
        message_text(items) == before_item(items, i) + item_text(items[i]) + behind_item(items, i),
{
    reveal_strlit("\n");
    assert("\n"@ =~= seq!['\n']);
    let head = items.take(i);
    let item = seq![items[i]];
    let tail = items.skip(i + 1);
    assert(message_text(item) == item_text(items[i]));
    assert(items =~= head + item + tail);
    let through = head + item;
    if head.len() > 0 {
        law_message_text_joins(head, item);
    } else {
        assert(through =~= item);
    }
    if tail.len() > 0 {
        law_message_text_joins(through, tail);
    } else {
        assert(through + tail =~= through);
    }
    assert(message_text(items) =~= before_item(items, i) + item_text(items[i]) + behind_item(
        items,
        i,
    ));
}

/// A text reads as it is; an image, a file, a skill and a mention read as a note
/// of their kind with what they name.
pub proof fn law_items_read_as_what_they_are(item: &UserInput, result: String)
    requires
        call_ensures(user_item_text, (item,), result),
    ensures
        match *item {
            UserInput::Text { text } => result@ == text@,
            UserInput::Image { url } => result@ == "[image: "@ + url@ + "]"@,
            UserInput::LocalImage { path } => result@ == "[image file: "@ + path@ + "]"@,
            UserInput::Skill { name, path } => result@ == "[skill: "@ + name@ + " at "@ + path@
                + "]"@,
            UserInput::Mention { name, path } => result@ == "[mention: "@ + name@ + " at "@ + path@
                + "]"@,
        },
        result@ == item_text(*item),
{
}

/// An empty message is an empty prompt, and a message of one item is that item.
pub proof fn law_small_messages(item: UserInput)
    ensures
        message_text(Seq::empty()).len() == 0,
        message_text(seq![item]) == item_text(item),
{
}

proof fn lemma_keys_differ()
    ensures
        "type"@ != "message"@,
{
    reveal_strlit("type");
    reveal_strlit("message");
    assert("type"@.len() == 4);
    assert("message"@.len() == 7);
}

/// The prompt command holds the message, unchanged, and its type, and nothing
/// else.
pub proof fn law_prompts_hold_the_message(message: String, command: Json)
    requires
        call_ensures(prompt_command, (message,), command),
    ensures
        text_at(command@, "type"@) == Some("prompt"@),
        text_at(command@, "message"@) == Some(message@),
        command@ is Object,
        forall|key: Seq<char>| #[trigger]
            command@->Object_0.contains_key(key) ==> key == "type"@ || key == "message"@,
{
    lemma_keys_differ();
}

/// The abort command holds its type and nothing else.
pub proof fn law_aborts_hold_nothing_else(command: Json)
    requires
        call_ensures(abort_command, (), command),
    ensures
        text_at(command@, "type"@) == Some("abort"@),
        command@ is Object,
        forall|key: Seq<char>| #[trigger]
            command@->Object_0.contains_key(key) ==> key == "type"@,
{
}

/// The line of a prompt or an abort is its JSON and a line break, and reads back
/// as the command that it carries.
pub proof fn law_commands_read_back(message: String, command: Json, line: String)
    requires
        call_ensures(prompt_command, (message,), command) || call_ensures(
            abort_command,
            (),
            command,
        ),
        call_ensures(command_line, (&command,), line),
    ensures
        line@ == json_text(command@) + seq!['\n'],
        !line@.drop_last().contains('\n'),
        parsed_json(line@.drop_last()) == Some(command@),
{
    reveal_strlit("\n");
    assert("\n"@ =~= seq!['\n']);
    lemma_commands_are_flat(message, command);
}

proof fn lemma_commands_are_flat(message: String, command: Json)
    requires
        call_ensures(prompt_command, (message,), command) || call_ensures(
            abort_command,
            (),
            command,
        ),
    ensures
        command@.is_integral(127),
{
    lemma_keys_differ();
    let members = command@->Object_0;
    assert forall|key: Seq<char>| #[trigger] members.contains_key(
        key,
    ) implies members[key].is_integral(126) by {
        assert(members[key] is Str);
    }
}

/// A turn opens with the labels of the agent, the id that counts the turns, the
/// provider that is set, and a prompt that holds what the message says; only
/// turn number one is the first.
pub proof fn law_turns_open_with_the_message(
    turn: u64,
    provider: &Option<String>,
    input: &Vec<UserInput>,
    opening: TurnOpening,
)
    requires
        call_ensures(open_turn, (turn, provider, input), opening),
    ensures
        opening.first_turn <==> turn == 1,
        opening.config.harness@ == "pi"@,
        opening.config.cli_version@ == "pi"@,
        opening.config.turn_id@ == "turn-"@ + decimal(turn as nat),
        *provider matches Some(provider) ==> opening.config.model_provider@ == provider@,
        *provider is None ==> opening.config.model_provider@ == "pi"@,
        text_at(opening.prompt@, "type"@) == Some("prompt"@),
        text_at(opening.prompt@, "message"@) == Some(message_text(input@)),
        input@.len() == 1 ==> (input@[0] matches UserInput::Text { text } ==> text_at(
            opening.prompt@,
            "message"@,
        ) == Some(text@)),
{
    lemma_keys_differ();
}

} // verus!
