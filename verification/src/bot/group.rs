//! The modes of group chats.
use vstd::prelude::*;

use crate::table::Table;
use crate::text::{lowered, same, to_lower, trim, trimmed};

verus! {

/// What the translator mode adds to the system prompt.
pub const TRANSLATOR_PROMPT: &'static str =
    "\n\n## Group Translator Mode\nYou are in translator mode for this group chat. For every message, detect the language and translate it to English. If the message is already in English, translate it to Spanish. Keep translations natural and conversational. Just provide the translation — no explanations or prefixes unless asked. If the message is very short (emoji, 'ok', 'yes'), just echo it back unchanged.";

/// How the bot behaves in a group.
#[derive(Debug, Clone, Copy, PartialEq, Eq, Structural)]
pub enum GroupMode {
    /// An assistant that answers when it is mentioned.
    Assistant,
    /// A translator that answers every message.
    Translate,
}

/// The mode with the given name, which is in lower case.
pub open spec fn mode_named(name: Seq<char>) -> Option<GroupMode> {
    if name == "assistant"@ || name == "chat"@ || name == "default"@ {
        Some(GroupMode::Assistant)
    } else if name == "translate"@ || name == "translator"@ || name == "translation"@ {
        Some(GroupMode::Translate)
    } else {
        None
    }
}

impl GroupMode {
    /// What the mode adds to the system prompt.
    pub open spec fn suffix(self) -> Seq<char> {
        match self {
            GroupMode::Assistant => ""@,
            GroupMode::Translate => TRANSLATOR_PROMPT@,
        }
    }

    /// The name of the mode.
    pub open spec fn name(self) -> Seq<char> {
        match self {
            GroupMode::Assistant => "Assistant"@,
            GroupMode::Translate => "Translator"@,
        }
    }

    /// What the mode adds to the system prompt.
    pub fn system_prompt_suffix(&self) -> (r: &'static str)
        ensures
            r@ == self.suffix(),
    {
        match self {
            GroupMode::Assistant => "",
            GroupMode::Translate => TRANSLATOR_PROMPT,
        }
    }

    /// Whether the bot answers every message, mentioned or not.
    pub fn responds_to_all(&self) -> (r: bool)
        ensures
            r == (*self == GroupMode::Translate),
    {
        match self {
            GroupMode::Assistant => false,
            GroupMode::Translate => true,
        }
    }

    /// The name of the mode.
    pub fn display_name(&self) -> (r: &'static str)
        ensures
            r@ == self.name(),
    {
        match self {
            GroupMode::Assistant => "Assistant",
            GroupMode::Translate => "Translator",
        }
    }

    /// The mode that a user names, in any case and with white space around it.
    pub fn from_str(s: &str) -> (r: Option<Self>)
        ensures
            r == mode_named(lowered(trimmed(s@))),
    {
        GroupMode::from_lowercase(to_lower(trim(s).as_str()).as_str())
    }

    /// The mode with the given name, which is in lower case.
    pub fn from_lowercase(name: &str) -> (r: Option<Self>)
        ensures
            r == mode_named(name@),
    {
        if same(name, "assistant") || same(name, "chat") || same(name, "default") {
            Some(GroupMode::Assistant)
        } else if same(name, "translate") || same(name, "translator") || same(
            name,
            "translation",
        ) {
            Some(GroupMode::Translate)
        } else {
            None
        }
    }
}

impl Default for GroupMode {
    fn default() -> (r: Self)
        ensures
            r == GroupMode::Assistant,
    {
        GroupMode::Assistant
    }
}

/// The modes of the groups. They last as long as the program runs.
pub struct GroupConfigStore {
    modes: Table<GroupMode>,
}

impl View for GroupConfigStore {
    type V = Map<Seq<char>, GroupMode>;

    closed spec fn view(&self) -> Map<Seq<char>, GroupMode> {
        self.modes@
    }
}

/// The mode of a group among the modes that were set: the assistant unless another was.
pub open spec fn mode_of(modes: Map<Seq<char>, GroupMode>, group: Seq<char>) -> GroupMode {
    if modes.contains_key(group) {
        modes[group]
    } else {
        GroupMode::Assistant
    }
}

impl GroupConfigStore {
    /// No group has a mode of its own.
    pub fn new() -> (r: Self)
        ensures
            r@ == Map::<Seq<char>, GroupMode>::empty(),
    {
        GroupConfigStore { modes: Table::new() }
    }

    /// The mode of a group.
    pub fn get_mode(&self, group_id: &str) -> (r: GroupMode)
        ensures
            r == mode_of(self@, group_id@),
    {
        match self.modes.get(group_id) {
            Some(mode) => *mode,
            None => GroupMode::Assistant,
        }
    }

    /// Sets the mode of a group.
    pub fn set_mode(&mut self, group_id: &str, mode: GroupMode)
        ensures
            final(self)@ == old(self)@.insert(group_id@, mode),
    {
        self.modes.insert(group_id.to_owned(), mode);
    }
}

/// The mode that was set for a group is its mode, and no other group's mode changes.
pub proof fn law_mode_is_per_group(
    modes: Map<Seq<char>, GroupMode>,
    group: Seq<char>,
    mode: GroupMode,
    other: Seq<char>,
)
    ensures
        mode_of(modes.insert(group, mode), group) == mode,
        other != group ==> mode_of(modes.insert(group, mode), other) == mode_of(modes, other),
{
}

/// A mode is named by any of its three names and by nothing else, in any case of ASCII letters and
/// with white space around it.
pub proof fn law_modes_have_three_names(s: &str, r: Option<GroupMode>)
    requires
        call_ensures(GroupMode::from_str, (s,), r),
    ensures
        ({
            let name = lowered(trimmed(s@));
            &&& r == Some(GroupMode::Assistant) <==> name == "assistant"@ || name == "chat"@ || name
                == "default"@
            &&& r == Some(GroupMode::Translate) <==> name == "translate"@ || name == "translator"@
                || name == "translation"@
        }),
{
    reveal_strlit("assistant");
    reveal_strlit("chat");
    reveal_strlit("default");
    reveal_strlit("translate");
    reveal_strlit("translator");
    reveal_strlit("translation");
    assert("assistant"@[0] == 'a' && "chat"@[0] == 'c' && "default"@[0] == 'd');
    assert("translate"@[0] == 't' && "translator"@[0] == 't' && "translation"@[0] == 't');
}

/// The translator answers everything and adds to the system prompt that it is one; the assistant
/// does neither. A group has the assistant until another mode is set.
pub proof fn law_what_the_modes_do(
    mode: &GroupMode,
    all: bool,
    suffix: &'static str,
    name: &'static str,
    usual: GroupMode,
    store: GroupConfigStore,
)
    requires
        call_ensures(GroupMode::responds_to_all, (mode,), all),
        call_ensures(GroupMode::system_prompt_suffix, (mode,), suffix),
        call_ensures(GroupMode::display_name, (mode,), name),
        call_ensures(GroupMode::default, (), usual),
        call_ensures(GroupConfigStore::new, (), store),
    ensures
        *mode == GroupMode::Assistant ==> !all && suffix@.len() == 0 && name@ == "Assistant"@,
        *mode == GroupMode::Translate ==> all && suffix@ == TRANSLATOR_PROMPT@ && name@
            == "Translator"@,
        usual == GroupMode::Assistant,
        forall|group: Seq<char>| #[trigger] mode_of(store@, group) == GroupMode::Assistant,
{
    reveal_strlit("");
}

/// The mode that was set for a group is read back, and the modes of other groups stay.
pub proof fn law_set_modes_are_read_back(
    store: &mut GroupConfigStore,
    group_id: &str,
    mode: GroupMode,
    other: &str,
    read: GroupMode,
    before: GroupMode,
    after: GroupMode,
)
    requires
        call_ensures(GroupConfigStore::get_mode, (&*old(store), other), before),
        call_ensures(GroupConfigStore::set_mode, (store, group_id, mode), ()),
        call_ensures(GroupConfigStore::get_mode, (&*final(store), group_id), read),
        call_ensures(GroupConfigStore::get_mode, (&*final(store), other), after),
    ensures
        read == mode,
        other@ != group_id@ ==> after == before,
{
}

} // verus!
