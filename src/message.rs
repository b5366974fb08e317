use vstd::prelude::*;

verus! {

/// Who a message of a conversation comes from.
#[derive(Debug, Clone, Copy, PartialEq, Eq, Structural)]
pub enum ChatRole {
    System,
    User,
    Assistant,
    Tool,
}

/// One message of a conversation. Only a tool's reply is linked to the tool call it
/// answers.
#[derive(Debug)]
pub struct ChatMessage {
    pub id: String,
    pub role: ChatRole,
    pub content: String,
    pub tool_call_id: Option<String>,
}

/// The role's name on the wire.
pub open spec fn role_text(role: ChatRole) -> Seq<char> {
    match role {
        ChatRole::System => "system"@,
        ChatRole::User => "user"@,
        ChatRole::Assistant => "assistant"@,
        ChatRole::Tool => "tool"@,
    }
}

pub open spec fn digit(d: nat) -> char {
    if d == 0 {
        '0'
    } else if d == 1 {
        '1'
    } else if d == 2 {
        '2'
    } else if d == 3 {
        '3'
    } else if d == 4 {
        '4'
    } else if d == 5 {
        '5'
    } else if d == 6 {
        '6'
    } else if d == 7 {
        '7'
    } else if d == 8 {
        '8'
    } else {
        '9'
    }
}

/// The decimal digits of `n`, without leading zeros.
pub open spec fn decimal(n: nat) -> Seq<char>
    decreases n,
{
    if n < 10 {
        seq![digit(n)]
    } else {
        decimal(n / 10).push(digit(n % 10))
    }
}

/// An identifier made of a prefix, a dash and a number.
pub open spec fn is_stamped(id: Seq<char>, prefix: Seq<char>) -> bool {
    exists|n: nat| id == prefix + "-"@ + decimal(n)
}

impl ChatMessage {
    /// A message is linked to a tool call exactly when it is a tool's reply.
    pub open spec fn wf(&self) -> bool {
        self.tool_call_id is Some <==> self.role == ChatRole::Tool
    }

    /// A message with a fresh identifier; `None` where the link does not fit the role:
    /// a tool's reply needs one, any other message must have none.
    pub fn new(
        ids: &mut IdSource,
        role: ChatRole,
        content: String,
        tool_call_id: Option<String>,
    ) -> (r: Option<ChatMessage>)
        ensures
            r is Some <==> (tool_call_id is Some <==> role == ChatRole::Tool),
            r matches Some(m) ==> m.wf() && m.role == role && m.content@ == content@
                && m.tool_call_id.deep_view() == tool_call_id.deep_view() && m.id@ == role_text(
                role,
            ) + "-"@ + decimal(final(ids).last as nat),
            r is None ==> final(ids).last == old(ids).last,
            final(ids).last >= old(ids).last,
            r is Some && old(ids).last < u128::MAX ==> final(ids).last > old(ids).last,
    {
        if tool_call_id.is_some() != (role == ChatRole::Tool) {
            return None;
        }
        let id = ids.next_id(role_name(role));
        Some(ChatMessage { id, role, content, tool_call_id })
    }

    pub fn user(ids: &mut IdSource, content: String) -> (r: ChatMessage)
        ensures
            r.id@ == "user-"@ + decimal(final(ids).last as nat),
            final(ids).last >= old(ids).last,
            old(ids).last < u128::MAX ==> final(ids).last > old(ids).last,
            r.wf(),
            r.role == ChatRole::User,
            r.content@ == content@,
    {
        let id = ids.next_id("user");
        proof {
            reveal_strlit("user");
            reveal_strlit("user-");
            reveal_strlit("-");
            assert("user"@ + "-"@ =~= "user-"@);
        }
        ChatMessage { id, role: ChatRole::User, content, tool_call_id: None }
    }

    pub fn assistant(ids: &mut IdSource, content: String) -> (r: ChatMessage)
        ensures
            r.id@ == "assistant-"@ + decimal(final(ids).last as nat),
            final(ids).last >= old(ids).last,
            old(ids).last < u128::MAX ==> final(ids).last > old(ids).last,
            r.wf(),
            r.role == ChatRole::Assistant,
            r.content@ == content@,
    {
        let id = ids.next_id("assistant");
        proof {
            reveal_strlit("assistant");
            reveal_strlit("assistant-");
            reveal_strlit("-");
            assert("assistant"@ + "-"@ =~= "assistant-"@);
        }
        ChatMessage {
            id,
            role: ChatRole::Assistant,
            content,
            tool_call_id: None,
        }
    }

    /// A tool's reply to the call `call_id`.
    pub fn tool(ids: &mut IdSource, content: String, call_id: String) -> (r: ChatMessage)
        ensures
            r.id@ == "tool-"@ + decimal(final(ids).last as nat),
            final(ids).last >= old(ids).last,
            old(ids).last < u128::MAX ==> final(ids).last > old(ids).last,
            r.wf(),
            r.role == ChatRole::Tool,
            r.content@ == content@,
            r.tool_call_id matches Some(l) && l@ == call_id@,
    {
        let id = ids.next_id("tool");
        proof {
            reveal_strlit("tool");
            reveal_strlit("tool-");
            reveal_strlit("-");
            assert("tool"@ + "-"@ =~= "tool-"@);
        }
        ChatMessage {
            id,
            role: ChatRole::Tool,
            content,
            tool_call_id: Some(call_id),
        }
    }

    pub fn duplicate(&self) -> (r: ChatMessage)
        ensures
            r.id@ == self.id@,
            r.role == self.role,
            r.content@ == self.content@,
            r.tool_call_id.deep_view() == self.tool_call_id.deep_view(),
    {
        ChatMessage {
            id: self.id.clone(),
            role: self.role,
            content: self.content.clone(),
            tool_call_id: match &self.tool_call_id {
                Some(l) => Some(l.clone()),
                None => None,
            },
        }
    }
}

pub fn role_name(role: ChatRole) -> (r: &'static str)
    ensures
        r@ == role_text(role),
{
    match role {
        ChatRole::System => "system",
        ChatRole::User => "user",
        ChatRole::Assistant => "assistant",
        ChatRole::Tool => "tool",
    }
}

/// Relies on std::time::SystemTime::elapsed, taken from the Unix epoch: the microseconds
/// on this machine's clock (zero for a clock set before the epoch). Nothing is promised
/// of the value.
#[verifier::external_body]
fn clock_micros() -> u128 {
    std::time::UNIX_EPOCH.elapsed().unwrap_or_default().as_micros()
}

fn digit_text(d: u128) -> (r: &'static str)
    requires
        d < 10,
    ensures
        r@ == seq![digit(d as nat)],
{
    proof {
        reveal_strlit("0");
        reveal_strlit("1");
        reveal_strlit("2");
        reveal_strlit("3");
        reveal_strlit("4");
        reveal_strlit("5");
        reveal_strlit("6");
        reveal_strlit("7");
        reveal_strlit("8");
        reveal_strlit("9");
    }
    if d == 0 {
        "0"
    } else if d == 1 {
        "1"
    } else if d == 2 {
        "2"
    } else if d == 3 {
        "3"
    } else if d == 4 {
        "4"
    } else if d == 5 {
        "5"
    } else if d == 6 {
        "6"
    } else if d == 7 {
        "7"
    } else if d == 8 {
        "8"
    } else {
        "9"
    }
}

/// The decimal digits of `n`.
pub fn decimal_text(n: u128) -> (r: String)
    ensures
        r@ == decimal(n as nat),
{
    let mut rest: u128 = n / 10;
    let mut acc = String::from_str(digit_text(n % 10));
    while rest > 0
        invariant
            rest > 0 ==> decimal(n as nat) == decimal(rest as nat) + acc@,
            rest == 0 ==> decimal(n as nat) == acc@,
        decreases rest,
    {
        let ghost old_acc = acc@;
        let d = rest % 10;
        acc = String::from_str(digit_text(d)).concat(acc.as_str());
        proof {
            if rest >= 10 {
                assert(decimal(rest as nat) == decimal((rest / 10) as nat).push(digit(d as nat)));
                assert(decimal((rest / 10) as nat).push(digit(d as nat)) + old_acc =~= decimal(
                    (rest / 10) as nat,
                ) + acc@);
            } else {
                assert(acc@ =~= seq![digit(d as nat)] + old_acc);
            }
        }
        rest = rest / 10;
    }
    acc
}

/// Hands out the stamps of identifiers: the clock's microseconds, raised above the last
/// stamp handed out where the clock has not moved on, so one source never repeats a
/// stamp.
#[derive(Debug, Clone, Copy)]
pub struct IdSource {
    pub last: u128,
}

impl IdSource {
    pub fn new() -> (r: IdSource)
        ensures
            r.last == 0,
    {
        IdSource { last: 0 }
    }

    /// A stamp above every stamp handed out before (the largest stamp repeats only once
    /// every value below it has been used).
    pub fn next_stamp(&mut self) -> (r: u128)
        ensures
            final(self).last == r,
            r >= old(self).last,
            old(self).last < u128::MAX ==> r > old(self).last,
    {
        let now = clock_micros();
        let r = if now > self.last {
            now
        } else if self.last < u128::MAX {
            self.last + 1
        } else {
            self.last
        };
        self.last = r;
        r
    }

    /// A fresh identifier: the prefix, a dash and a new stamp.
    pub fn next_id(&mut self, prefix: &str) -> (r: String)
        ensures
            r@ == prefix@ + "-"@ + decimal(final(self).last as nat),
            final(self).last >= old(self).last,
            old(self).last < u128::MAX ==> final(self).last > old(self).last,
    {
        let stamp = self.next_stamp();
        let digits = decimal_text(stamp);
        String::from_str(prefix).concat("-").concat(digits.as_str())
    }
}

} // verus!
