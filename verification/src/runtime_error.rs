//! The error of the agent runtime: a message, and whether the turn was
//! cancelled.
use vstd::prelude::*;

use crate::text::{decimal, owned, padded_decimal, push_padded_decimal, push_text};

verus! {

/// An error of the agent runtime.
#[derive(Debug)]
pub struct RuntimeError {
    message: String,
    cancelled: bool,
}

impl Clone for RuntimeError {
    /// A copy with the same message and the same cancelled flag.
    fn clone(&self) -> (r: Self)
        ensures
            r == *self,
            r@ == self@,
    {
        RuntimeError { message: self.message.clone(), cancelled: self.cancelled }
    }
}

impl View for RuntimeError {
    type V = (Seq<char>, bool);

    /// The message, and whether the error stands for a cancelled turn.
    closed spec fn view(&self) -> (Seq<char>, bool) {
        (self.message@, self.cancelled)
    }
}

fn prefixed(prefix: &str, detail: &str) -> (r: String)
    ensures
        r@ == prefix@ + detail@,
{
    let mut message = owned(prefix);
    push_text(&mut message, detail);
    message
}

impl RuntimeError {
    /// The language model failed.
    pub fn model(error: &str) -> (r: Self)
        ensures
            r@ == ("模型执行失败："@ + error@, false),
    {
        RuntimeError { message: prefixed("模型执行失败：", error), cancelled: false }
    }

    /// An event subscription failed; the message is kept as it is.
    pub fn subscription(message: &str) -> (r: Self)
        ensures
            r@ == (message@, false),
    {
        RuntimeError { message: owned(message), cancelled: false }
    }

    /// The session could not be persisted.
    pub fn session(error: &str) -> (r: Self)
        ensures
            r@ == ("会话持久化失败："@ + error@, false),
    {
        RuntimeError { message: prefixed("会话持久化失败：", error), cancelled: false }
    }

    /// A runtime hook failed.
    pub fn hook(error: &str) -> (r: Self)
        ensures
            r@ == ("运行时 hook 失败："@ + error@, false),
    {
        RuntimeError { message: prefixed("运行时 hook 失败：", error), cancelled: false }
    }

    /// A tool failed.
    pub fn tool(error: &str) -> (r: Self)
        ensures
            r@ == ("工具执行失败："@ + error@, false),
    {
        RuntimeError { message: prefixed("工具执行失败：", error), cancelled: false }
    }

    /// The model asked for a tool that is not available.
    pub fn tool_unavailable(tool_name: &str) -> (r: Self)
        ensures
            r@ == ("工具不可用："@ + tool_name@, false),
    {
        RuntimeError { message: prefixed("工具不可用：", tool_name), cancelled: false }
    }

    /// A tool answered for another call than the one it was given.
    pub fn tool_result_mismatch(
        call_tool_name: &str,
        call_invocation_id: &str,
        result_tool_name: &str,
        result_invocation_id: &str,
    ) -> (r: Self)
        ensures
            r@ == ("工具结果不匹配：调用 "@ + call_tool_name@ + "#"@ + call_invocation_id@ + ", 结果 "@
                + result_tool_name@ + "#"@ + result_invocation_id@, false),
    {
        let mut message = prefixed("工具结果不匹配：调用 ", call_tool_name);
        push_text(&mut message, "#");
        push_text(&mut message, call_invocation_id);
        push_text(&mut message, ", 结果 ");
        push_text(&mut message, result_tool_name);
        push_text(&mut message, "#");
        push_text(&mut message, result_invocation_id);
        RuntimeError { message, cancelled: false }
    }

    /// A turn asked for more tool calls than allowed.
    pub fn tool_call_limit(max_tool_calls: u64) -> (r: Self)
        ensures
            r@ == ("轮次超过最大工具调用次数："@ + decimal(max_tool_calls as nat), false),
    {
        let mut message = owned("轮次超过最大工具调用次数：");
        push_padded_decimal(&mut message, max_tool_calls, 0);
        assert(padded_decimal(max_tool_calls as nat, 0) == decimal(max_tool_calls as nat));
        RuntimeError { message, cancelled: false }
    }

    /// The stop reason of a completion disagrees with its content; the stop
    /// reason is given as it is rendered for debugging.
    pub fn stop_reason_mismatch(stop_reason: &str) -> (r: Self)
        ensures
            r@ == ("停止原因与完成内容不匹配："@ + stop_reason@, false),
    {
        RuntimeError { message: prefixed("停止原因与完成内容不匹配：", stop_reason), cancelled: false }
    }

    /// The turn was cancelled.
    pub fn cancelled() -> (r: Self)
        ensures
            r@ == ("本轮已取消"@, true),
    {
        RuntimeError { message: owned("本轮已取消"), cancelled: true }
    }

    /// Whether the error stands for a cancelled turn.
    pub fn is_cancelled(&self) -> (r: bool)
        ensures
            r == self@.1,
    {
        self.cancelled
    }

    /// The message, as the error displays it.
    pub fn to_message(&self) -> (r: String)
        ensures
            r@ == self@.0,
    {
        self.message.clone()
    }
}

} // verus!
