//! What the bot is made of, and whether it replies.
use vstd::prelude::*;

use crate::text::{opt_view, same};

verus! {

/// The reply where a message could not be handled.
pub const SOMETHING_WENT_WRONG: &'static str = "Sorry, something went wrong.";

/// Which tools are to be offered to the language model.
#[derive(Debug)]
pub struct ToolsConfig {
    /// Whether tools are offered at all.
    pub enabled: bool,
    pub calculator: bool,
    pub weather: bool,
    pub web_search: bool,
    /// The key of the web search, without which there is none.
    pub web_search_api_key: Option<String>,
    pub web_search_max_results: usize,
}

/// A tool that is offered to the language model.
#[derive(Debug)]
pub enum Tool {
    Calculator,
    Weather,
    WebSearch { api_key: String, max_results: usize },
}

/// A [`Tool`] with its texts as character sequences.
pub enum ToolView {
    Calculator,
    Weather,
    WebSearch { api_key: Seq<char>, max_results: usize },
}

impl View for Tool {
    type V = ToolView;

    open spec fn view(&self) -> ToolView {
        match *self {
            Tool::Calculator => ToolView::Calculator,
            Tool::Weather => ToolView::Weather,
            Tool::WebSearch { api_key, max_results } => ToolView::WebSearch {
                api_key: api_key@,
                max_results,
            },
        }
    }
}

/// One tool, or none.
pub open spec fn tool_if(wanted: bool, tool: ToolView) -> Seq<ToolView> {
    if wanted {
        seq![tool]
    } else {
        Seq::empty()
    }
}

/// The tools that a configuration asks for.
pub open spec fn tools_of(config: ToolsConfig) -> Seq<ToolView> {
    if !config.enabled {
        Seq::empty()
    } else {
        tool_if(config.calculator, ToolView::Calculator) + tool_if(
            config.weather,
            ToolView::Weather,
        ) + (match config.web_search_api_key {
            Some(key) => tool_if(
                config.web_search,
                ToolView::WebSearch {
                    api_key: key@,
                    max_results: config.web_search_max_results,
                },
            ),
            None => Seq::empty(),
        })
    }
}

/// The tools with their texts as character sequences.
pub open spec fn tools_view(tools: Seq<Tool>) -> Seq<ToolView> {
    tools.map_values(|t: Tool| t@)
}

/// The tools that a configuration asks for.
pub fn create_tool_registry(config: &ToolsConfig) -> (r: Vec<Tool>)
    ensures
        tools_view(r@) == tools_of(*config),
{
    let mut tools: Vec<Tool> = Vec::new();
    if !config.enabled {
        assert(tools_view(tools@) =~= tools_of(*config));
        return tools;
    }
    if config.calculator {
        tools.push(Tool::Calculator);
    }
    if config.weather {
        tools.push(Tool::Weather);
    }
    if config.web_search {
        if let Some(key) = &config.web_search_api_key {
            tools.push(
                Tool::WebSearch {
                    api_key: key.clone(),
                    max_results: config.web_search_max_results,
                },
            );
        }
    }
    assert(tools_view(tools@) =~= tools_of(*config));
    tools
}

/// How users pay.
#[derive(Debug, Clone, Copy, PartialEq, Eq, Structural)]
pub enum PaymentProvider {
    Stripe,
    X402,
    Disabled,
}

/// The payment provider with the given name. Any other name means that there is none.
pub fn payment_provider(name: &str) -> (r: PaymentProvider)
    ensures
        r == (if name@ == "stripe"@ {
            PaymentProvider::Stripe
        } else if name@ == "x402"@ {
            PaymentProvider::X402
        } else {
            PaymentProvider::Disabled
        }),
{
    if same(name, "stripe") {
        PaymentProvider::Stripe
    } else if same(name, "x402") {
        PaymentProvider::X402
    } else {
        PaymentProvider::Disabled
    }
}

/// The reply to a message, if there is one: what the handler says unless that is empty, and an
/// apology where the handler failed. `answer` is what the handler says unless it failed.
pub fn reply_to(answer: Option<String>) -> (r: Option<String>)
    ensures
        opt_view(r) == (match answer {
            Some(text) => if text@.len() == 0 {
                None
            } else {
                Some(text@)
            },
            None => Some(SOMETHING_WENT_WRONG@),
        }),
{
    match answer {
        Some(text) => if text.as_str().is_empty() {
            None
        } else {
            Some(text)
        },
        None => Some(SOMETHING_WENT_WRONG.to_owned()),
    }
}

/// A tool is offered exactly where tools are enabled and it is asked for; the web search needs a
/// key besides, and comes with that key and its number of results. No tool is offered twice.
pub proof fn law_tools_are_offered_as_configured(config: &ToolsConfig, r: Vec<Tool>)
    requires
        call_ensures(create_tool_registry, (config,), r),
    ensures
        (exists|i: int| 0 <= i < r@.len() && #[trigger] r@[i] is Calculator) <==> config.enabled
            && config.calculator,
        (exists|i: int| 0 <= i < r@.len() && #[trigger] r@[i] is Weather) <==> config.enabled
            && config.weather,
        (exists|i: int| 0 <= i < r@.len() && #[trigger] r@[i] is WebSearch) <==> config.enabled
            && config.web_search && config.web_search_api_key is Some,
        forall|i: int|
            0 <= i < r@.len() ==> (#[trigger] r@[i] matches Tool::WebSearch { api_key, max_results }
                ==> api_key@ == config.web_search_api_key->0@ && max_results
                == config.web_search_max_results),
        r@.len() == (if config.enabled {
            (if config.calculator { 1int } else { 0int }) + (if config.weather { 1int } else { 0int })
                + (if config.web_search && config.web_search_api_key is Some { 1int } else { 0int })
        } else {
            0int
        }),
{
    let tools = tools_view(r@);
    assert(tools.len() == r@.len());
    assert forall|i: int| 0 <= i < r@.len() implies #[trigger] tools[i] == r@[i]@ by {}
    if config.enabled {
        let a = if config.calculator { 1int } else { 0int };
        let b = if config.weather { 1int } else { 0int };
        if config.calculator {
            assert(tools[0] is Calculator);
            assert(r@[0] is Calculator);
        }
        if config.weather {
            assert(tools[a] is Weather);
            assert(r@[a] is Weather);
        }
        if config.web_search && config.web_search_api_key is Some {
            assert(tools[a + b] is WebSearch);
            assert(r@[a + b] is WebSearch);
        }
        assert forall|i: int| 0 <= i < r@.len() implies (#[trigger] r@[i] is Calculator
            ==> config.calculator) && (r@[i] is Weather ==> config.weather) && (r@[i] is WebSearch
            ==> config.web_search && config.web_search_api_key is Some) by {
            assert(tools[i] == r@[i]@);
        }
    }
}

/// Payments go through Stripe or through x402 where they are named so, and else through nobody.
pub proof fn law_providers_go_by_their_names(name: &str, r: PaymentProvider)
    requires
        call_ensures(payment_provider, (name,), r),
    ensures
        r == PaymentProvider::Stripe <==> name@ == "stripe"@,
        r == PaymentProvider::X402 <==> name@ == "x402"@,
{
    reveal_strlit("stripe");
    reveal_strlit("x402");
    assert("stripe"@.len() == 6 && "x402"@.len() == 4);
}

/// What a handler says is the reply, unless it says nothing; a failure is apologised for.
pub proof fn law_replies_are_what_was_said(answer: Option<String>, r: Option<String>)
    requires
        call_ensures(reply_to, (answer,), r),
    ensures
        r is None <==> (answer matches Some(text) && text@.len() == 0),
        answer matches Some(text) ==> (r matches Some(reply) ==> reply@ == text@),
        answer is None ==> (r matches Some(reply) && reply@ == "Sorry, something went wrong."@),
{
}

} // verus!
