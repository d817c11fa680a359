//! `!help`: the commands that there are.
use vstd::prelude::*;
use vstd::string::*;

use crate::text::same;

verus! {

/// The commands of Stripe subscriptions.
pub const STRIPE_SECTION: &'static str =
    "\n**Subscription:**\n- !subscribe - Upgrade to Premium for unlimited messages\n- !subscription - Check your plan and usage\n- !manage - Manage billing and payment\n\nFree tier includes 15 messages/day. Upgrade for unlimited access.";

/// The commands of prepaid credits.
pub const X402_SECTION: &'static str =
    "\n**Payments:**\nThis bot uses prepaid credits. Deposit USDC on Base, NEAR, or Solana to add credits.\n- !balance - Check your credit balance\n- !deposit - Get deposit addresses for USDC";

/// What stands before the commands on payments.
pub const HELP_HEAD: &'static str =
    "**Signal AI** (Private & Verifiable)\n\nJust send a message to chat with AI.\n\n**Commands:**\n- !verify <challenge> - Get TEE attestation with your challenge\n- !clear - Clear conversation history\n- !models - List available AI models\n- !help - Show this message\n";

/// What stands after the commands on payments.
pub const HELP_TAIL: &'static str =
    "\n\n**Group Chat:**\nAdd me to any group! In groups I respond when @mentioned.\n- !mode assistant - AI assistant (default, responds when mentioned)\n- !mode translate - Auto-translate every message\nGroups get 15 free messages/day.\n\n**Verification:**\nUse `!verify my-random-text` to get cryptographic proof this bot runs in a TEE.\n\n**Privacy:**\nMessages are end-to-end encrypted via Signal, processed in a TEE (Intel TDX), and sent to NEAR AI's private inference.\nNeither the bot operator nor NEAR AI can read your messages.";

/// The commands on payments with the given provider.
pub open spec fn payment_section(provider: Seq<char>) -> Seq<char> {
    if provider == "stripe"@ {
        STRIPE_SECTION@
    } else if provider == "x402"@ {
        X402_SECTION@
    } else {
        ""@
    }
}

/// The handler of `!help`.
pub struct HelpHandler {
    payment_provider: String,
}

impl HelpHandler {
    /// The payment provider whose commands are shown.
    pub closed spec fn provider(&self) -> Seq<char> {
        self.payment_provider@
    }

    /// A handler without a payment provider.
    pub fn new() -> (r: Self)
        ensures
            r.provider() == "none"@,
    {
        HelpHandler { payment_provider: "none".to_owned() }
    }

    /// A handler with the given payment provider.
    pub fn with_payment_provider(provider: &str) -> (r: Self)
        ensures
            r.provider() == provider@,
    {
        HelpHandler { payment_provider: provider.to_owned() }
    }

    /// The command.
    pub fn trigger(&self) -> (r: Option<&'static str>)
        ensures
            r == Some("!help"),
    {
        Some("!help")
    }

    /// The answer to the command.
    pub fn execute(&self) -> (r: String)
        ensures
            r@ == HELP_HEAD@ + payment_section(self.provider()) + HELP_TAIL@,
    {
        let provider = self.payment_provider.as_str();
        let mut m = HELP_HEAD.to_owned();
        m.append(
            if same(provider, "stripe") {
                STRIPE_SECTION
            } else if same(provider, "x402") {
                X402_SECTION
            } else {
                ""
            },
        );
        m.append(HELP_TAIL);
        m
    }
}

impl Default for HelpHandler {
    fn default() -> (r: Self)
        ensures
            r.provider() == "none"@,
    {
        HelpHandler::new()
    }
}

/// The commands of a payment provider are shown to those who use it and to nobody else: those of
/// subscriptions with Stripe, those of prepaid credits with x402, and none with any other provider
/// or with none.
pub proof fn law_only_the_providers_commands_are_shown(
    provider: &str,
    handler: HelpHandler,
    plain: HelpHandler,
    help: String,
    plain_help: String,
)
    requires
        call_ensures(HelpHandler::with_payment_provider, (provider,), handler),
        call_ensures(HelpHandler::new, (), plain),
        call_ensures(HelpHandler::execute, (&handler,), help),
        call_ensures(HelpHandler::execute, (&plain,), plain_help),
    ensures
        ({
            let head =
                "**Signal AI** (Private & Verifiable)\n\nJust send a message to chat with AI.\n\n**Commands:**\n- !verify <challenge> - Get TEE attestation with your challenge\n- !clear - Clear conversation history\n- !models - List available AI models\n- !help - Show this message\n"@;
            let tail =
                "\n\n**Group Chat:**\nAdd me to any group! In groups I respond when @mentioned.\n- !mode assistant - AI assistant (default, responds when mentioned)\n- !mode translate - Auto-translate every message\nGroups get 15 free messages/day.\n\n**Verification:**\nUse `!verify my-random-text` to get cryptographic proof this bot runs in a TEE.\n\n**Privacy:**\nMessages are end-to-end encrypted via Signal, processed in a TEE (Intel TDX), and sent to NEAR AI's private inference.\nNeither the bot operator nor NEAR AI can read your messages."@;
            &&& plain_help@ == head + tail
            &&& provider@ == "stripe"@ ==> help@ == head
                + "\n**Subscription:**\n- !subscribe - Upgrade to Premium for unlimited messages\n- !subscription - Check your plan and usage\n- !manage - Manage billing and payment\n\nFree tier includes 15 messages/day. Upgrade for unlimited access."@
                + tail
            &&& provider@ == "x402"@ ==> help@ == head
                + "\n**Payments:**\nThis bot uses prepaid credits. Deposit USDC on Base, NEAR, or Solana to add credits.\n- !balance - Check your credit balance\n- !deposit - Get deposit addresses for USDC"@
                + tail
            &&& provider@ != "stripe"@ && provider@ != "x402"@ ==> help@ == plain_help@
        }),
{
    reveal_strlit("");
    reveal_strlit("none");
    reveal_strlit("stripe");
    reveal_strlit("x402");
    assert("none"@.len() == 4 && "stripe"@.len() == 6 && "x402"@.len() == 4);
    assert("none"@[0] != "x402"@[0]);
    assert(HELP_HEAD@ + ""@ =~= HELP_HEAD@);
}

/// The command is called `!help`, and a usual handler is one without a payment provider.
pub proof fn law_the_help_command_is_called_by_name(
    usual: HelpHandler,
    plain: HelpHandler,
    r: Option<&'static str>,
    help: String,
    plain_help: String,
)
    requires
        call_ensures(HelpHandler::default, (), usual),
        call_ensures(HelpHandler::new, (), plain),
        call_ensures(HelpHandler::trigger, (&usual,), r),
        call_ensures(HelpHandler::execute, (&usual,), help),
        call_ensures(HelpHandler::execute, (&plain,), plain_help),
    ensures
        r == Some("!help"),
        help@ == plain_help@,
{
}

} // verus!
