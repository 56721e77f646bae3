//! The text shown to the user when an operation fails: the error itself and
//! every cause below it, one paragraph each.
use vstd::prelude::*;
use vstd::string::StringExecFns;

verus! {

#[verifier::external_type_specification]
#[verifier::external_body]
pub struct ExAnyhowError(anyhow::Error);

/// The views of a list of messages.
pub open spec fn message_views(messages: Seq<String>) -> Seq<Seq<char>> {
    messages.map_values(|m: String| m@)
}

/// The report of an error chain: `Error: <first>` and a line break, then
/// for each further cause a paragraph `Caused by:` with the cause indented by
/// a tab.
pub open spec fn chain_text(messages: Seq<Seq<char>>) -> Seq<char>
    decreases messages.len(),
{
    if messages.len() <= 1 {
        "Error: "@ + messages[0] + "\n"@
    } else {
        chain_text(messages.drop_last()) + "\nCaused by:\n\t"@ + messages.last()
    }
}

/// The messages of `error.chain()` of anyhow, each turned into text by its
/// `Display` impl: the error itself first, then each source below it.
/// Claimed: there is at least one message, since the chain starts with the
/// error itself. What each message says comes from `Display` impls of the
/// caller's error types and is left unsaid.
#[verifier::external_body]
fn chain_messages(error: &anyhow::Error) -> (messages: Vec<String>)
    ensures
        messages.len() >= 1,
{
    error.chain().map(|cause| format!("{cause}")).collect()
}

/// Formats the messages of an error chain, the outermost error first.
pub fn error_chain_text(messages: &Vec<String>) -> (text: String)
    requires
        messages.len() >= 1,
    ensures
        text@ == chain_text(message_views(messages@)),
{
    let ghost views = message_views(messages@);
    let mut text = String::from_str("Error: ");
    text.append(messages[0].as_str());
    text.append("\n");
    assert(views.take(1).drop_last() =~= views.take(0));
    let mut i: usize = 1;
    while i < messages.len()
        invariant
            1 <= i <= messages.len(),
            views == message_views(messages@),
            text@ == chain_text(views.take(i as int)),
        decreases messages.len() - i,
    {
        assert(views.take(i as int + 1).drop_last() =~= views.take(i as int));
        text.append("\nCaused by:\n\t");
        text.append(messages[i].as_str());
        i += 1;
    }
    assert(views.take(messages.len() as int) =~= views);
    text
}

/// The report of an error and all its causes, as shown in an error popup.
pub fn error_chain_string(error: anyhow::Error) -> (text: String)
    ensures
        exists|messages: Seq<Seq<char>>|
            messages.len() >= 1 && text@ == #[trigger] chain_text(messages),
{
    let messages = chain_messages(&error);
    error_chain_text(&messages)
}

} // verus!
