//! Chat-completion request modelling: roles, turns, payloads, the
//! model-identifier table, and the client-side payload builders.
//!
//! Everything here is pure bookkeeping over plain values. The network
//! call itself, and the JSON encoding of a [`Payload`], happen outside
//! the library; the caller hands back the decoded choice contents and
//! the library picks the answer with [`first_choice`].

use vstd::prelude::*;
use crate::CompletionError;
use crate::ToolError;

verus! {

/// The role tag of one conversation turn.
#[derive(Clone, Copy, Debug, PartialEq, Eq, Structural)]
pub enum Role {
    System,
    User,
    Assistant,
}

/// One role-tagged message of a conversation.
#[derive(Clone, Debug)]
pub struct Turn {
    pub role: Role,
    pub content: String,
}

/// The mathematical image of a [`Turn`]: the role and the character
/// sequence of the content.
pub struct TurnView {
    pub role: Role,
    pub content: Seq<char>,
}

impl View for Turn {
    type V = TurnView;

    open spec fn view(&self) -> TurnView {
        TurnView { role: self.role, content: self.content@ }
    }
}

impl DeepView for Turn {
    type V = TurnView;

    open spec fn deep_view(&self) -> TurnView {
        self@
    }
}

/// One chat-completion request body: the remote model identifier and
/// the ordered turn sequence.
#[derive(Clone, Debug)]
pub struct Payload {
    pub model: String,
    pub messages: Vec<Turn>,
}

/// The fixed set of remote models the tool can address.
#[derive(Clone, Copy, Debug, PartialEq, Eq, Structural)]
pub enum Model {
    LLMA8b,
    LLMA70b,
    MISTRAL,
    GEMMA7b,
    GEMMA9b,
}

/// The remote identifier of each model.
pub open spec fn model_id(m: Model) -> Seq<char> {
    match m {
        Model::LLMA8b => "llama3-8b-8192"@,
        Model::LLMA70b => "llama3-70b-8192"@,
        Model::MISTRAL => "mixtral-8x7b-32768"@,
        Model::GEMMA7b => "gemma-7b-it"@,
        Model::GEMMA9b => "gemma-9b-it"@,
    }
}

/// Which model a command-line model code selects. Unrecognized codes
/// fall back to the default model.
pub open spec fn model_of_code(code: Seq<char>) -> Model {
    if code == "L8"@ {
        Model::LLMA8b
    } else if code == "L70"@ {
        Model::LLMA70b
    } else if code == "M"@ {
        Model::MISTRAL
    } else if code == "G7"@ {
        Model::GEMMA7b
    } else if code == "G9"@ {
        Model::GEMMA9b
    } else {
        Model::LLMA8b
    }
}

impl Model {
    /// The identifier string sent to the remote endpoint.
    pub fn identifier(&self) -> (r: String)
        ensures
            r@ == model_id(*self),
    {
        match *self {
            Model::LLMA8b => String::from_str("llama3-8b-8192"),
            Model::LLMA70b => String::from_str("llama3-70b-8192"),
            Model::MISTRAL => String::from_str("mixtral-8x7b-32768"),
            Model::GEMMA7b => String::from_str("gemma-7b-it"),
            Model::GEMMA9b => String::from_str("gemma-9b-it"),
        }
    }

    /// The model a command-line code selects, with the default model
    /// for an unrecognized code.
    pub fn from_code(code: &String) -> (m: Model)
        ensures
            m == model_of_code(code@),
    {
        if *code == String::from_str("L8") {
            Model::LLMA8b
        } else if *code == String::from_str("L70") {
            Model::LLMA70b
        } else if *code == String::from_str("M") {
            Model::MISTRAL
        } else if *code == String::from_str("G7") {
            Model::GEMMA7b
        } else if *code == String::from_str("G9") {
            Model::GEMMA9b
        } else {
            Model::LLMA8b
        }
    }
}

/// The leading system turn of a request, if a system prompt is set.
pub open spec fn system_prefix(system: Option<Seq<char>>) -> Seq<TurnView> {
    match system {
        Some(s) => seq![TurnView { role: Role::System, content: s }],
        None => Seq::empty(),
    }
}

/// The chronological interleaving of the two history windows: for each
/// exchange, first the prior assistant output, then the user input
/// that followed it.
pub open spec fn interleaved_turns(assistants: Seq<Seq<char>>, users: Seq<Seq<char>>) -> Seq<
    TurnView,
> {
    Seq::new(
        2 * assistants.len(),
        |i: int|
            if i % 2 == 0 {
                TurnView { role: Role::Assistant, content: assistants[i / 2] }
            } else {
                TurnView { role: Role::User, content: users[i / 2] }
            },
    )
}

/// The full turn sequence of a multi-turn request: an optional system
/// turn, then the interleaved history, oldest exchange first.
pub open spec fn request_turns(
    system: Option<Seq<char>>,
    assistants: Seq<Seq<char>>,
    users: Seq<Seq<char>>,
) -> Seq<TurnView> {
    system_prefix(system) + interleaved_turns(assistants, users)
}

/// Extending the interleaving by one exchange appends exactly one
/// assistant turn and one user turn.
proof fn lemma_interleaved_extend(a: Seq<Seq<char>>, u: Seq<Seq<char>>, j: int)
    requires
        a.len() == u.len(),
        0 < j <= a.len(),
    ensures
        interleaved_turns(a.take(j), u.take(j)) == interleaved_turns(a.take(j - 1), u.take(j - 1))
            + seq![
            TurnView { role: Role::Assistant, content: a[j - 1] },
            TurnView { role: Role::User, content: u[j - 1] },
        ],
{
    let lhs = interleaved_turns(a.take(j), u.take(j));
    let rhs = interleaved_turns(a.take(j - 1), u.take(j - 1)) + seq![
        TurnView { role: Role::Assistant, content: a[j - 1] },
        TurnView { role: Role::User, content: u[j - 1] },
    ];
    assert forall|k: int| 0 <= k < lhs.len() implies lhs[k] == rhs[k] by {
        if k < 2 * (j - 1) {
            assert(k % 2 == 0 ==> 0 <= k / 2 < j - 1);
            assert(k % 2 == 1 ==> 0 <= k / 2 < j - 1);
        } else if k == 2 * (j - 1) {
            assert(k % 2 == 0);
            assert(k / 2 == j - 1);
        } else {
            assert(k == 2 * (j - 1) + 1);
            assert(k % 2 == 1);
            assert(k / 2 == j - 1);
        }
    }
    assert(lhs =~= rhs);
}

/// The client-side configuration of the completion client: the ticker
/// under analysis, the session's system prompt, and a pending query.
#[derive(Clone, Debug)]
pub struct LLM {
    pub ticker: Option<String>,
    pub system: Option<String>,
    pub prompt: Option<String>,
}

impl LLM {
    /// The system prompt as a character sequence, if one is set.
    pub open spec fn spec_system(&self) -> Option<Seq<char>> {
        match self.system {
            Some(s) => Some(s@),
            None => None,
        }
    }

    /// A client with no ticker, no system prompt and no pending query.
    pub fn new() -> (r: LLM)
        ensures
            r.ticker is None,
            r.system is None,
            r.prompt is None,
    {
        LLM { ticker: None, system: None, prompt: None }
    }

    /// Assembles the request payload of one interactive exchange: the
    /// optional system turn, then the entire retained history as
    /// alternating (assistant, user) pairs, oldest first.
    pub fn prepare_prompt(
        &self,
        look_back_input_window: &Vec<String>,
        look_back_assistant_window: &Vec<String>,
        model: &Model,
    ) -> (p: Payload)
        requires
            look_back_input_window@.len() == look_back_assistant_window@.len(),
        ensures
            p.model@ == model_id(*model),
            p.messages.deep_view() == request_turns(
                self.spec_system(),
                look_back_assistant_window.deep_view(),
                look_back_input_window.deep_view(),
            ),
    {
        let ghost sys = self.spec_system();
        let ghost a_all = look_back_assistant_window.deep_view();
        let ghost u_all = look_back_input_window.deep_view();

        let mut messages: Vec<Turn> = Vec::new();

        if let Some(system_text) = &self.system {
            messages.push(Turn { role: Role::System, content: system_text.clone() });
        }
        assert(messages.deep_view() =~= request_turns(sys, a_all.take(0), u_all.take(0)));

        let n = look_back_assistant_window.len();
        let mut i: usize = 0;
        while i < n
            invariant
                a_all == look_back_assistant_window.deep_view(),
                u_all == look_back_input_window.deep_view(),
                sys == self.spec_system(),
                n == a_all.len(),
                n == u_all.len(),
                n == look_back_assistant_window@.len(),
                n == look_back_input_window@.len(),
                i <= n,
                messages.deep_view() == request_turns(sys, a_all.take(i as int), u_all.take(i as int)),
            decreases n - i,
        {
            let ghost head = messages.deep_view();
            let assistant_turn = Turn {
                role: Role::Assistant,
                content: look_back_assistant_window[i].clone(),
            };
            let user_turn = Turn { role: Role::User, content: look_back_input_window[i].clone() };
            let ghost pushed = seq![assistant_turn@, user_turn@];
            messages.push(assistant_turn);
            messages.push(user_turn);
            i += 1;
            proof {
                let j = i as int;
                let prev = j - 1;
                assert(messages.deep_view() =~= head + pushed);
                lemma_interleaved_extend(a_all, u_all, j);
                assert(pushed[0] == TurnView { role: Role::Assistant, content: a_all[prev] });
                assert(pushed[1] == TurnView { role: Role::User, content: u_all[prev] });
                assert(head + pushed =~= request_turns(sys, a_all.take(j), u_all.take(j)));
            }
        }

        assert(a_all.take(n as int) =~= a_all);
        assert(u_all.take(n as int) =~= u_all);

        Payload { model: model.identifier(), messages }
    }

    /// Assembles the payload of a single-shot query: the system turn
    /// if a system prompt is set, then the query as a user turn, then
    /// the fixed brevity instruction as an assistant turn.
    pub fn prompt_payload(&self, query: String, model: &Model) -> (p: Payload)
        ensures
            p.model@ == model_id(*model),
            p.messages.deep_view() == system_prefix(self.spec_system()) + seq![
                TurnView { role: Role::User, content: query@ },
                TurnView { role: Role::Assistant, content: brevity_instruction() },
            ],
    {
        let ghost q = query@;
        let mut messages: Vec<Turn> = Vec::new();
        if let Some(system_text) = &self.system {
            messages.push(Turn { role: Role::System, content: system_text.clone() });
        }
        messages.push(Turn { role: Role::User, content: query });
        messages.push(
            Turn {
                role: Role::Assistant,
                content: String::from_str(
                    "Try to answer as concise as possible, I do not want to read large responses",
                ),
            },
        );
        proof {
            assert(messages.deep_view() =~= system_prefix(self.spec_system()) + seq![
                TurnView { role: Role::User, content: q },
                TurnView { role: Role::Assistant, content: brevity_instruction() },
            ]);
        }
        Payload { model: model.identifier(), messages }
    }
}

/// The fixed brevity instruction attached to single-shot queries.
pub open spec fn brevity_instruction() -> Seq<char> {
    "Try to answer as concise as possible, I do not want to read large responses"@
}

/// Selects the answer of a completion response: the first choice, or
/// `EmptyResponse` when the endpoint returned no choices.
pub fn first_choice(choices: Vec<String>) -> (r: Result<String, CompletionError>)
    ensures
        match r {
            Ok(s) => choices.deep_view().len() > 0 && s@ == choices.deep_view()[0],
            Err(e) => choices.deep_view().len() == 0 && e == CompletionError::EmptyResponse,
        },
{
    let mut choices = choices;
    if choices.len() == 0 {
        Err(CompletionError::EmptyResponse)
    } else {
        Ok(choices.remove(0))
    }
}

/// Validates the credential read from the process environment:
/// `MissingCredential` when the variable is absent, the token itself
/// otherwise.
pub fn credential_from_env(value: Option<String>) -> (r: Result<String, ToolError>)
    ensures
        match value {
            Some(token) => r == Ok::<String, ToolError>(token),
            None => r == Err::<String, ToolError>(ToolError::MissingCredential),
        },
{
    match value {
        Some(token) => Ok(token),
        None => Err(ToolError::MissingCredential),
    }
}

/// The shape of an assembled multi-turn request: with `n` retained
/// exchanges it holds exactly `2 * n` turns, plus one leading system
/// turn when a system prompt is set, and alternates assistant/user
/// turns starting with an assistant turn.
pub proof fn lemma_request_shape(
    system: Option<Seq<char>>,
    assistants: Seq<Seq<char>>,
    users: Seq<Seq<char>>,
)
    requires
        assistants.len() == users.len(),
    ensures
        ({
            let r = request_turns(system, assistants, users);
            let offset: int = if system is Some {
                1int
            } else {
                0int
            };
            &&& r.len() == 2 * users.len() + offset
            &&& (system is Some ==> r[0].role == Role::System && r[0].content == system->0)
            &&& forall|j: int|
                0 <= j < users.len() ==> #[trigger] r[offset + 2 * j].role == Role::Assistant
                    && r[offset + 2 * j].content == assistants[j]
            &&& forall|j: int|
                0 <= j < users.len() ==> #[trigger] r[offset + 2 * j + 1].role == Role::User
                    && r[offset + 2 * j + 1].content == users[j]
        }),
{
    let r = request_turns(system, assistants, users);
    let offset: int = if system is Some {
        1int
    } else {
        0int
    };
    assert forall|j: int| 0 <= j < users.len() implies #[trigger] r[offset + 2 * j].role
        == Role::Assistant && r[offset + 2 * j].content == assistants[j] by {
        assert((2 * j) % 2 == 0);
        assert((2 * j) / 2 == j);
    }
    assert forall|j: int| 0 <= j < users.len() implies #[trigger] r[offset + 2 * j + 1].role
        == Role::User && r[offset + 2 * j + 1].content == users[j] by {
        assert((2 * j + 1) % 2 == 1);
        assert((2 * j + 1) / 2 == j);
    }
}

} // verus!