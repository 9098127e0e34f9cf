//! What is made of the service's answer, in terms of the answer and the tool's settings.
use crate::exchange;
use crate::exchange::PostOutcomeView;
use crate::exchange::ToolResultView;
use crate::tables;
use crate::text;
use crate::tool::PendingView;
use crate::tool::ToolView;
use vstd::prelude::*;

verus! {

broadcast use vstd::string::group_string_axioms;

/// A text whose UTF-8 form is within the limit is shown as it is. Of any other, exactly as
/// many characters are kept as the limit says, or all where there are fewer, and the notice
/// stands behind them.
pub proof fn law_cut(tool: ToolView, full: Seq<char>)
    ensures
        ({
            let size = vstd::utf8::encode_utf8(full).len();
            let limit = tool.max_response_size as int;
            let kept = if full.len() < limit {
                full.len() as int
            } else {
                limit
            };
            &&& size <= limit ==> tool.shown(full) == full
            &&& size > limit ==> tool.shown(full) == full.take(kept)
                + "\n\n... [Response truncated due to size limit] ..."@
        }),
{
    if full.len() <= tool.max_response_size {
        assert(full.take(full.len() as int) == full);
    }
}

/// A result is a success with its output and no error, or a failure with its error and no
/// output.
pub proof fn law_results(said: Seq<char>)
    ensures
        exchange::success(said) == (ToolResultView { success: true, output: said, error: None }),
        exchange::failure(said) == (ToolResultView {
            success: false,
            output: Seq::empty(),
            error: Some(said),
        }),
{
}

/// An answer with a status of success is received as its body, in full. Any other gives an
/// error with its status and its body, and a post that failed gives the reason as it is.
pub proof fn law_received(status: u16, body: Seq<char>, reason: Seq<char>)
    ensures
        200 <= status <= 299 ==> exchange::received(PostOutcomeView::Response { status, body })
            == Ok::<Seq<char>, Seq<char>>(body),
        status < 200 || status > 299 ==> exchange::received(
            PostOutcomeView::Response { status, body },
        ) == Err::<Seq<char>, Seq<char>>(
            "GraphJin returned HTTP "@ + text::decimal(status as nat) + ": "@ + body,
        ),
        exchange::received(PostOutcomeView::Failed(reason)) == Err::<Seq<char>, Seq<char>>(reason),
{
}

/// The answer to a description, a query or a mutation is handed back, character for
/// character where it is within the limit, and else cut as `law_cut` says.
pub proof fn law_answers_are_handed_back(
    tool: ToolView,
    pending: PendingView,
    status: u16,
    body: Seq<char>,
)
    requires
        !(pending is ListTables),
        200 <= status <= 299,
    ensures
        ({
            let result = tool.reply(pending, PostOutcomeView::Response { status, body });
            let size = vstd::utf8::encode_utf8(body).len();
            let limit = tool.max_response_size as int;
            let kept = if body.len() < limit {
                body.len() as int
            } else {
                limit
            };
            &&& result.success
            &&& result.error is None
            &&& size <= limit ==> result.output == body
            &&& size > limit ==> result.output == body.take(kept)
                + "\n\n... [Response truncated due to size limit] ..."@
        }),
{
    law_cut(tool, body);
}

/// The answer to a listing is shown as the list that is read from it; where it cannot be
/// read, it is handed back like any other. What is read is what is left of it after the cut.
pub proof fn law_lists_are_read(tool: ToolView, status: u16, body: Seq<char>)
    requires
        200 <= status <= 299,
    ensures
        ({
            let result = tool.reply(
                PendingView::ListTables,
                PostOutcomeView::Response { status, body },
            );
            let size = vstd::utf8::encode_utf8(body).len();
            let limit = tool.max_response_size as int;
            let kept = if body.len() < limit {
                body.len() as int
            } else {
                limit
            };
            let left = if size <= limit {
                body
            } else {
                body.take(kept) + "\n\n... [Response truncated due to size limit] ..."@
            };
            &&& result.success
            &&& result.error is None
            &&& crate::json::parsed(left) is None ==> result.output == left
            &&& crate::json::parsed(left) is Some ==> result.output == tables::table_list(
                crate::json::parsed(left)->0,
            )
        }),
{
    law_cut(tool, body);
}

/// An answer with any other status, and a post that failed, end the call in an error that
/// says what was tried and gives the reason in full; there is no output.
pub proof fn law_failures_are_told(
    tool: ToolView,
    pending: PendingView,
    status: u16,
    body: Seq<char>,
    reason: Seq<char>,
)
    ensures
        ({
            let failed = tool.reply(pending, PostOutcomeView::Failed(reason));
            &&& !failed.success
            &&& failed.output.len() == 0
            &&& failed.error == Some(
                match pending {
                    PendingView::ListTables => "Failed to connect to GraphJin at "@ + tool.api_url
                        + ": "@ + reason
                        + ". Make sure GraphJin is running (graphjin serve) and [graphjin].api_url is correct."@,
                    PendingView::DescribeTable(table) => "Failed to describe table '"@ + table
                        + "': "@ + reason,
                    PendingView::Query => "GraphQL query failed: "@ + reason,
                    PendingView::Mutate => "GraphQL mutation failed: "@ + reason,
                },
            )
        }),
        status < 200 || status > 299 ==> tool.reply(
            pending,
            PostOutcomeView::Response { status, body },
        ) == tool.reply(
            pending,
            PostOutcomeView::Failed(
                "GraphJin returned HTTP "@ + text::decimal(status as nat) + ": "@ + body,
            ),
        ),
{
}

} // verus!
