//! `!mode`: shows and sets how the bot behaves in a group.
use vstd::prelude::*;
use vstd::string::*;

use crate::bot::commands::message::BotMessage;
use crate::bot::group::{mode_named, mode_of, GroupConfigStore, GroupMode};
use crate::text::{
    after_prefix, law_prefixes_are_followed, law_trimming_cuts_white_space, lowered, strip_prefix,
    to_lower, trim, trimmed, trimmed_to,
};

verus! {

/// The answer outside of groups.
pub const GROUPS_ONLY: &'static str =
    "The `!mode` command only works in group chats. Add me to a group and try there!";

/// The modes that there are.
pub const MODES: &'static str =
    "\n\nAvailable modes:\n`!mode assistant` — AI assistant (responds when mentioned)\n`!mode translate` — Translator (translates every message)";

/// What follows the command in a message.
pub open spec fn mode_argument(text: Seq<char>) -> Seq<char> {
    trimmed(after_prefix(text, "!mode"@).unwrap_or(Seq::empty()))
}

/// What a mode makes the bot do.
pub open spec fn description(mode: GroupMode) -> Seq<char> {
    match mode {
        GroupMode::Assistant => "I'll respond when mentioned or when you use ! commands."@,
        GroupMode::Translate => "I'll translate every message in this group."@,
    }
}

/// The answer to the command in a group of the given mode, where `lower` is the argument in lower
/// case.
pub open spec fn group_answer(argument: Seq<char>, lower: Seq<char>, current: GroupMode) -> Seq<
    char,
> {
    if argument.len() == 0 {
        "**Current mode:** "@ + current.name() + MODES@
    } else {
        match mode_named(lower) {
            Some(mode) => "Mode set to **"@ + mode.name() + "**. "@ + description(mode),
            None => "Unknown mode: `"@ + argument + "`"@ + MODES@,
        }
    }
}

/// The mode that the command sets.
pub open spec fn mode_set(argument: Seq<char>, lower: Seq<char>) -> Option<GroupMode> {
    if argument.len() == 0 {
        None
    } else {
        mode_named(lower)
    }
}

/// The modes after a command in a group.
pub open spec fn modes_after(
    modes: Map<Seq<char>, GroupMode>,
    group: Seq<char>,
    set: Option<GroupMode>,
) -> Map<Seq<char>, GroupMode> {
    match set {
        Some(mode) => modes.insert(group, mode),
        None => modes,
    }
}

/// The handler of `!mode`.
pub struct ModeHandler {}

impl ModeHandler {
    pub fn new() -> ModeHandler {
        ModeHandler {  }
    }

    /// The command.
    pub fn trigger(&self) -> (r: Option<&'static str>)
        ensures
            r == Some("!mode"),
    {
        Some("!mode")
    }

    /// Answers the command and sets the mode that it names.
    pub fn execute(&self, group_config: &mut GroupConfigStore, message: &BotMessage) -> (r: String)
        ensures
            !message.is_group ==> r@ == GROUPS_ONLY@ && final(group_config)@ == old(group_config)@,
            message.is_group ==> {
                let argument = mode_argument(message@.text);
                let lower = lowered(trimmed(argument));
                let group = message@.reply_target;
                &&& r@ == group_answer(argument, lower, mode_of(old(group_config)@, group))
                &&& final(group_config)@ == modes_after(
                    old(group_config)@,
                    group,
                    mode_set(argument, lower),
                )
            },
    {
        if !message.is_group {
            return GROUPS_ONLY.to_owned();
        }
        let rest = match strip_prefix(message.text.as_str(), "!mode") {
            Some(rest) => rest,
            None => String::new(),
        };
        let argument = trim(rest.as_str());
        let lower = to_lower(trim(argument.as_str()).as_str());
        assert(argument@ == mode_argument(message@.text)) by {
            assert(rest@ =~= after_prefix(message@.text, "!mode"@).unwrap_or(Seq::empty()));
        }
        ModeHandler::answer(
            group_config,
            message.reply_target.as_str(),
            argument.as_str(),
            lower.as_str(),
        )
    }

    /// Answers the command with the given argument in a group, where `lower` is the argument in
    /// lower case, and sets the mode that it names.
    pub fn answer(
        group_config: &mut GroupConfigStore,
        group_id: &str,
        argument: &str,
        lower: &str,
    ) -> (r: String)
        ensures
            r@ == group_answer(argument@, lower@, mode_of(old(group_config)@, group_id@)),
            final(group_config)@ == modes_after(
                old(group_config)@,
                group_id@,
                mode_set(argument@, lower@),
            ),
    {
        if argument.unicode_len() == 0 {
            let current = group_config.get_mode(group_id);
            let mut m = "**Current mode:** ".to_owned();
            m.append(current.display_name());
            m.append(MODES);
            return m;
        }
        match GroupMode::from_lowercase(lower) {
            Some(mode) => {
                let mut m = "Mode set to **".to_owned();
                m.append(mode.display_name());
                m.append("**. ");
                m.append(
                    match mode {
                        GroupMode::Assistant =>
                            "I'll respond when mentioned or when you use ! commands.",
                        GroupMode::Translate => "I'll translate every message in this group.",
                    },
                );
                group_config.set_mode(group_id, mode);
                m
            },
            None => {
                let mut m = "Unknown mode: `".to_owned();
                m.append(argument);
                m.append("`");
                m.append(MODES);
                m
            },
        }
    }
}

/// Outside of groups the command changes nothing. In a group it changes the mode of that group, and
/// of no other, where its argument names a mode; without an argument or with another one it
/// changes nothing.
pub proof fn law_the_command_sets_the_named_mode(
    handler: &ModeHandler,
    group_config: &mut GroupConfigStore,
    message: &BotMessage,
    r: String,
    group: Seq<char>,
)
    requires
        call_ensures(ModeHandler::execute, (handler, group_config, message), r),
    ensures
        ({
            let argument = mode_argument(message@.text);
            let named = mode_named(lowered(argument));
            let before = mode_of(old(group_config)@, group);
            let after = mode_of(final(group_config)@, group);
            if message.is_group && group == message.reply_target@ && argument.len() > 0 && named
                is Some {
                after == named->0
            } else {
                after == before
            }
        }),
{
    lemma_trimmed_twice(after_prefix(message@.text, "!mode"@).unwrap_or(Seq::empty()));
}

/// What is trimmed stays as it is when it is trimmed again.
proof fn lemma_trimmed_twice(s: Seq<char>)
    ensures
        trimmed(trimmed(s)) == trimmed(s),
{
    law_trimming_cuts_white_space(s);
    let (i, j) = choose|i: int, j: int| #[trigger]
        trimmed_to(s, i, j) && trimmed(s) == s.subrange(i, j);
    let t = trimmed(s);
    if t.len() > 0 {
        assert(t[0] == s[i] && t.last() == s[j - 1]);
    }
}

/// What the command answers: outside of groups that it is of no use there, and in a group the
/// group's mode, the mode that was set and what it does, or that there is no such mode.
pub proof fn law_the_command_answers(
    handler: &ModeHandler,
    group_config: &mut GroupConfigStore,
    message: &BotMessage,
    r: String,
)
    requires
        call_ensures(ModeHandler::execute, (handler, group_config, message), r),
    ensures
        ({
            let argument = mode_argument(message@.text);
            let modes =
                "\n\nAvailable modes:\n`!mode assistant` — AI assistant (responds when mentioned)\n`!mode translate` — Translator (translates every message)"@;
            if !message.is_group {
                r@
                    == "The `!mode` command only works in group chats. Add me to a group and try there!"@
            } else if argument.len() == 0 {
                r@ == "**Current mode:** "@ + (match mode_of(
                    old(group_config)@,
                    message.reply_target@,
                ) {
                    GroupMode::Assistant => "Assistant"@,
                    GroupMode::Translate => "Translator"@,
                }) + modes
            } else {
                match mode_named(lowered(argument)) {
                    Some(GroupMode::Assistant) => r@ == "Mode set to **"@ + "Assistant"@ + "**. "@
                        + "I'll respond when mentioned or when you use ! commands."@,
                    Some(GroupMode::Translate) => r@ == "Mode set to **"@ + "Translator"@ + "**. "@
                        + "I'll translate every message in this group."@,
                    None => r@ == "Unknown mode: `"@ + argument + "`"@ + modes,
                }
            }
        }),
{
    lemma_trimmed_twice(after_prefix(message@.text, "!mode"@).unwrap_or(Seq::empty()));
}

/// The argument of the command is what follows it, without the white space around it.
pub proof fn law_the_argument_follows_the_command(rest: Seq<char>)
    ensures
        mode_argument("!mode"@ + rest) == trimmed(rest),
{
    law_prefixes_are_followed("!mode"@ + rest, "!mode"@, rest);
}

/// The command is called `!mode`, and what does not begin with it has no argument.
pub proof fn law_the_mode_command_is_called_by_name(
    handler: &ModeHandler,
    r: Option<&'static str>,
    text: Seq<char>,
)
    requires
        call_ensures(ModeHandler::trigger, (handler,), r),
    ensures
        r == Some("!mode"),
        !"!mode"@.is_prefix_of(text) ==> mode_argument(text).len() == 0,
{
    let none = Seq::<char>::empty();
    assert(trimmed(none) == none);
}

/// An argument that names a mode sets the mode of the group, and of no other group; any other
/// argument, and none, sets nothing.
pub proof fn law_arguments_set_the_mode_they_name(
    group_config: &mut GroupConfigStore,
    group_id: &str,
    argument: &str,
    lower: &str,
    r: String,
    group: Seq<char>,
    named: Option<GroupMode>,
)
    requires
        call_ensures(ModeHandler::answer, (group_config, group_id, argument, lower), r),
        call_ensures(GroupMode::from_lowercase, (lower,), named),
    ensures
        mode_of(final(group_config)@, group) == (if group == group_id@ && argument@.len() > 0
            && named is Some {
            named->0
        } else {
            mode_of(old(group_config)@, group)
        }),
        named == Some(GroupMode::Assistant) <==> lower@ == "assistant"@ || lower@ == "chat"@
            || lower@ == "default"@,
        named == Some(GroupMode::Translate) <==> lower@ == "translate"@ || lower@ == "translator"@
            || lower@ == "translation"@,
{
    reveal_strlit("assistant");
    reveal_strlit("chat");
    reveal_strlit("default");
    reveal_strlit("translate");
    reveal_strlit("translator");
    reveal_strlit("translation");
    assert("assistant"@[0] == 'a' && "chat"@[0] == 'c' && "default"@[0] == 'd');
    assert("translate"@[0] == 't' && "translator"@[0] == 't' && "translation"@[0] == 't');
}

} // verus!
