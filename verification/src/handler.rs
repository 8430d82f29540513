//! Handling of one incoming message: what is stored, when the bot answers, and in which
//! order the work is done. The work itself (network, database, model) is done by the caller,
//! which reports each result back as an event.
use vstd::prelude::*;
use vstd::string::*;
use crate::models::{clone_opt_string, ChatContext, ChatMessage};
use crate::text::{contains_str, contains_text};
use crate::time::Timestamp;

verus! {

/// User name assumed for a sender without one.
pub const FALLBACK_NAME: &'static str = "bot";

/// The text sent when no answer could be generated.
pub const APOLOGY_TEXT: &'static str = "Извини, я временно не могу сообразить...";

/// A Telegram user as the handler sees it.
#[derive(Debug)]
pub struct TgUser {
    /// The user's identifier.
    pub id: u64,
    /// The user's user name, if set.
    pub username: Option<String>,
}

/// Where a forwarded message came from.
#[derive(Debug)]
pub enum TgForwardOrigin {
    /// A user whose account is shown.
    User { username: Option<String>, first_name: String, last_name: Option<String> },
    /// A user who hides the link to the account, known only by a name.
    HiddenUser { name: String },
    /// A group or channel.
    Chat { title: Option<String>, username: Option<String> },
}

/// What the handler reads of a Telegram message.
#[derive(Debug)]
pub struct TgMessage {
    /// The message's identifier within its chat.
    pub id: i32,
    /// The chat's identifier.
    pub chat_id: i64,
    /// The forum topic the message belongs to, if any.
    pub thread_id: Option<i32>,
    /// The chat's title (groups and channels have one).
    pub chat_title: Option<String>,
    /// Whether the chat is a private chat with one user.
    pub is_private: bool,
    /// The text, if the message is a text message.
    pub text: Option<String>,
    /// The sender, if known.
    pub from: Option<TgUser>,
    /// The identifier of the message this one answers, if any.
    pub reply_to_id: Option<i32>,
    /// The sender of the message this one answers, if both exist.
    pub reply_to_sender: Option<u64>,
    /// The quoted part of the answered message, if the answer quotes one.
    pub quote: Option<String>,
    /// Where the message was forwarded from, if it was forwarded.
    pub forward_origin: Option<TgForwardOrigin>,
}

/// The thread a message is stored under: its topic, or 0 outside topics.
pub open spec fn thread_key(thread_id: Option<i32>) -> i64 {
    match thread_id {
        Some(t) => t as i64,
        None => 0,
    }
}

/// The thread a message is stored under: its topic, or 0 outside topics.
pub fn thread_of(msg: &TgMessage) -> (r: i64)
    ensures
        r == thread_key(msg.thread_id),
{
    match msg.thread_id {
        Some(t) => t as i64,
        None => 0,
    }
}

/// A user name, or `FALLBACK_NAME` where there is none.
pub open spec fn name_or_fallback(username: Option<String>) -> Seq<char> {
    match username {
        Some(u) => u@,
        None => FALLBACK_NAME@,
    }
}

fn name_or_fallback_exec(username: &Option<String>) -> (r: String)
    ensures
        r@ == name_or_fallback(*username),
{
    match username {
        Some(u) => u.clone(),
        None => String::from_str(FALLBACK_NAME),
    }
}

/// The full name of a user: the first name, then a space and the last name if there is one.
pub open spec fn full_name(first_name: Seq<char>, last_name: Option<String>) -> Seq<char> {
    match last_name {
        Some(l) => first_name + seq![' '] + l@,
        None => first_name,
    }
}

/// The name stored for a forward origin: a user's user name, or the full name where there is
/// none; a hidden user's name; a chat's title, or its user name where there is no title (empty
/// where it has neither).
pub open spec fn forward_name(origin: TgForwardOrigin) -> Seq<char> {
    match origin {
        TgForwardOrigin::User { username, first_name, last_name } => match username {
            Some(u) => u@,
            None => full_name(first_name@, last_name),
        },
        TgForwardOrigin::HiddenUser { name } => name@,
        TgForwardOrigin::Chat { title, username } => match title {
            Some(t) => t@,
            None => match username {
                Some(u) => u@,
                None => Seq::<char>::empty(),
            },
        },
    }
}

/// The name stored for a forward origin.
pub fn forward_name_of(origin: &TgForwardOrigin) -> (r: String)
    ensures
        r@ == forward_name(*origin),
{
    match origin {
        TgForwardOrigin::User { username, first_name, last_name } => match username {
            Some(u) => u.clone(),
            None => {
                let mut out = first_name.clone();
                match last_name {
                    Some(l) => {
                        proof {
                            reveal_strlit(" ");
                        }
                        out.append(" ");
                        out.append(l.as_str());
                        assert(" "@ =~= seq![' ']);
                    },
                    None => {},
                }
                out
            },
        },
        TgForwardOrigin::HiddenUser { name } => name.clone(),
        TgForwardOrigin::Chat { title, username } => match title {
            Some(t) => t.clone(),
            None => match username {
                Some(u) => u.clone(),
                None => String::new(),
            },
        },
    }
}

/// The stored forward origin of a message: the origin's name, or nothing if the message was
/// not forwarded.
pub open spec fn stored_forward(r: Option<String>, origin: Option<TgForwardOrigin>) -> bool {
    match origin {
        Some(o) => r matches Some(f) && f@ == forward_name(o),
        None => r is None,
    }
}

/// `r` is the stored form of `msg` at time `timestamp`: identifiers widened to 64 bits, the
/// sender's identifier (0 without a sender, its bits read as signed) and user name
/// (`FALLBACK_NAME` without one), the text, the quoted fragment and the name of the forward
/// origin.
pub open spec fn is_stored_form(r: ChatMessage, msg: TgMessage, timestamp: Timestamp) -> bool {
    &&& r.message_id == msg.id as i64
    &&& r.reply_to_id == match msg.reply_to_id {
        Some(id) => Some(id as i64),
        None => None::<i64>,
    }
    &&& r.quote == msg.quote
    &&& stored_forward(r.forward_from, msg.forward_origin)
    &&& r.user_id == match msg.from {
        Some(u) => u.id as i64,
        None => 0i64,
    }
    &&& r.user_name@ == match msg.from {
        Some(u) => name_or_fallback(u.username),
        None => FALLBACK_NAME@,
    }
    &&& r.content@ == msg.text.unwrap()@
    &&& r.timestamp == timestamp
}

/// The stored form of a message with text, at time `timestamp`.
pub fn chat_message_at(msg: &TgMessage, timestamp: Timestamp) -> (r: ChatMessage)
    requires
        msg.text is Some,
    ensures
        is_stored_form(r, *msg, timestamp),
        r.message_id == msg.id as i64,
        msg.reply_to_id is None ==> r.reply_to_id is None,
        msg.reply_to_id matches Some(id) ==> r.reply_to_id == Some(id as i64),
        msg.from is None ==> r.user_id == 0 && r.user_name@ == FALLBACK_NAME@,
        msg.from matches Some(u) ==> r.user_id == u.id as i64,
        msg.from matches Some(u) ==> (u.username matches Some(n) ==> r.user_name@ == n@),
        msg.from matches Some(u) ==> (u.username is None ==> r.user_name@ == FALLBACK_NAME@),
        msg.text matches Some(t) ==> r.content@ == t@,
        r.quote == msg.quote,
        msg.forward_origin is None ==> r.forward_from is None,
        msg.forward_origin matches Some(o) ==> (r.forward_from matches Some(f) && f@ == forward_name(o)),
        r.timestamp == timestamp,
{
    let reply_to_id = match msg.reply_to_id {
        Some(id) => Some(id as i64),
        None => None,
    };
    let (user_id, user_name) = match &msg.from {
        Some(u) => (u.id as i64, name_or_fallback_exec(&u.username)),
        None => (0i64, String::from_str(FALLBACK_NAME)),
    };
    let forward_from = match &msg.forward_origin {
        Some(o) => Some(forward_name_of(o)),
        None => None,
    };
    let content = match &msg.text {
        Some(t) => t.clone(),
        None => String::new(),
    };
    ChatMessage {
        message_id: msg.id as i64,
        reply_to_id,
        quote: clone_opt_string(&msg.quote),
        forward_from,
        user_id,
        user_name,
        content,
        timestamp,
    }
}

/// The stored form of a message with text, stamped with the current time: a reading of the
/// clock, not a time given as numbers.
pub fn to_chat_message(msg: &TgMessage) -> (r: ChatMessage)
    requires
        msg.text is Some,
    ensures
        is_stored_form(r, *msg, r.timestamp),
        r.message_id == msg.id as i64,
        msg.reply_to_id is None ==> r.reply_to_id is None,
        msg.reply_to_id matches Some(id) ==> r.reply_to_id == Some(id as i64),
        msg.from is None ==> r.user_id == 0 && r.user_name@ == FALLBACK_NAME@,
        msg.from matches Some(u) ==> r.user_id == u.id as i64,
        msg.from matches Some(u) ==> (u.username matches Some(n) ==> r.user_name@ == n@),
        msg.from matches Some(u) ==> (u.username is None ==> r.user_name@ == FALLBACK_NAME@),
        msg.text matches Some(t) ==> r.content@ == t@,
        r.quote == msg.quote,
        msg.forward_origin is None ==> r.forward_from is None,
        msg.forward_origin matches Some(o) ==> (r.forward_from matches Some(f) && f@ == forward_name(o)),
        r.timestamp.spec_secs() >= 0,
        r.timestamp.spec_from_clock(),
{
    chat_message_at(msg, Timestamp::now())
}


/// The bot itself, as Telegram reports it.
#[derive(Debug)]
pub struct BotIdentity {
    /// The bot's user identifier.
    pub id: u64,
    /// The bot's user name, if set.
    pub username: Option<String>,
}

/// How a message mentions the bot: `@` and the bot's user name (`FALLBACK_NAME` without one).
pub open spec fn mention_of(bot: BotIdentity) -> Seq<char> {
    seq!['@'] + name_or_fallback(bot.username)
}

/// A message asks for an answer: its text mentions the bot, it answers a message of the bot,
/// or it was sent in a private chat.
pub open spec fn addressed_to_bot(msg: TgMessage, bot: BotIdentity) -> bool {
    ||| (msg.text matches Some(t) && contains_text(t@, mention_of(bot)))
    ||| msg.reply_to_sender == Some(bot.id)
    ||| msg.is_private
}

/// Whether the bot should answer `msg`.
pub fn should_reply(msg: &TgMessage, bot: &BotIdentity) -> (r: bool)
    ensures
        r == addressed_to_bot(*msg, *bot),
        (msg.text matches Some(t) && contains_text(t@, seq!['@'] + name_or_fallback(bot.username)))
            ==> r,
        msg.reply_to_sender == Some(bot.id) ==> r,
        msg.is_private ==> r,
        r ==> (msg.text matches Some(t) && contains_text(
            t@,
            seq!['@'] + name_or_fallback(bot.username),
        )) || msg.reply_to_sender == Some(bot.id) || msg.is_private,
{
    let is_mentioned = match &msg.text {
        Some(t) => {
            let mut mention = String::new();
            proof {
                reveal_strlit("@");
            }
            mention.append("@");
            let name = name_or_fallback_exec(&bot.username);
            mention.append(name.as_str());
            assert(mention@ =~= mention_of(*bot));
            contains_str(t.as_str(), mention.as_str())
        },
        None => false,
    };
    let is_reply_to_bot = match msg.reply_to_sender {
        Some(sender) => sender == bot.id,
        None => false,
    };
    is_mentioned || is_reply_to_bot || msg.is_private
}

// ---------------------------------------------------------------------------
// The order of work for one message
// ---------------------------------------------------------------------------

/// Where the handling of a message stands.
#[derive(Debug, Clone, Copy, PartialEq, Eq, Structural)]
pub enum Stage {
    /// Waiting for the bot's own identity.
    AwaitingBot,
    /// Waiting for the incoming message to be stored.
    SavingIncoming,
    /// Waiting for the "typing" status to be shown.
    ShowingTyping,
    /// Waiting for the thread's context.
    LoadingContext,
    /// Waiting for the model's answer.
    Generating,
    /// Waiting for the answer to be sent.
    SendingReply,
    /// Waiting for the sent answer to be stored.
    SavingReply,
    /// Waiting for the apology to be sent.
    SendingApology,
    /// Nothing is left to do.
    Done,
}

/// The result of a piece of work that the caller did.
#[derive(Debug)]
pub enum HandlerEvent {
    /// The bot's identity was read.
    BotLoaded(BotIdentity),
    /// A message was stored, or storing it failed (which changes nothing).
    MessageSaved,
    /// The "typing" status was shown.
    TypingShown,
    /// The thread's context, or `None` where it could not be read.
    ContextLoaded(Option<ChatContext>),
    /// The model's answer, or `None` where there is none.
    ReplyGenerated(Option<String>),
    /// The answer was sent as this message.
    ReplySent(TgMessage),
    /// The apology was sent.
    ApologySent,
}

/// The next piece of work for the caller.
#[derive(Debug)]
pub enum HandlerAction {
    /// Read the bot's identity.
    GetBot,
    /// Store the incoming message (in its stored form) under this chat and thread.
    SaveIncoming { chat_id: i64, thread_id: i64 },
    /// Show the "typing" status in the chat.
    ShowTyping { chat_id: i64 },
    /// Read the context of this chat and thread.
    LoadContext { chat_id: i64, thread_id: i64 },
    /// Ask the model for an answer to the context.
    GenerateReply { context: ChatContext, chat_title: Option<String>, thread_name: Option<String> },
    /// Send the answer in the chat, as a reply to the message with this identifier.
    SendReply { chat_id: i64, text: String, reply_to: i32 },
    /// Store the sent answer (in its stored form) under this chat and thread.
    SaveSent { chat_id: i64, thread_id: i64, sent: TgMessage },
    /// Send `APOLOGY_TEXT` in the chat.
    SendApology { chat_id: i64 },
    /// Stop: the message is handled.
    Finish,
}

/// The handling of one incoming message.
#[derive(Debug)]
pub struct MessageHandler {
    /// The message being handled.
    pub incoming: TgMessage,
    /// The bot's identity, once read.
    pub bot: Option<BotIdentity>,
    /// Where the handling stands.
    pub stage: Stage,
}

/// The handling of `incoming` before any work: the bot's identity comes first.
pub open spec fn handler_start(incoming: TgMessage) -> (MessageHandler, HandlerAction) {
    (MessageHandler { incoming, bot: None, stage: Stage::AwaitingBot }, HandlerAction::GetBot)
}

/// Events that the caller can report: a sent answer is a text message.
pub open spec fn event_well_formed(e: HandlerEvent) -> bool {
    e matches HandlerEvent::ReplySent(m) ==> m.text is Some
}

/// What the handling becomes after event `e`, and the next piece of work. An event that the
/// current stage does not wait for ends the handling.
pub open spec fn handler_next(h: MessageHandler, e: HandlerEvent) -> (MessageHandler, HandlerAction) {
    let chat_id = h.incoming.chat_id;
    let thread_id = thread_key(h.incoming.thread_id);
    let finish = (MessageHandler { stage: Stage::Done, ..h }, HandlerAction::Finish);
    match h.stage {
        Stage::AwaitingBot => match e {
            HandlerEvent::BotLoaded(bot) => if h.incoming.text is Some {
                (
                    MessageHandler { bot: Some(bot), stage: Stage::SavingIncoming, ..h },
                    HandlerAction::SaveIncoming { chat_id, thread_id },
                )
            } else {
                (MessageHandler { bot: Some(bot), stage: Stage::Done, ..h }, HandlerAction::Finish)
            },
            _ => finish,
        },
        Stage::SavingIncoming => match e {
            HandlerEvent::MessageSaved => if h.bot matches Some(bot) && addressed_to_bot(
                h.incoming,
                bot,
            ) {
                (
                    MessageHandler { stage: Stage::ShowingTyping, ..h },
                    HandlerAction::ShowTyping { chat_id },
                )
            } else {
                finish
            },
            _ => finish,
        },
        Stage::ShowingTyping => match e {
            HandlerEvent::TypingShown => (
                MessageHandler { stage: Stage::LoadingContext, ..h },
                HandlerAction::LoadContext { chat_id, thread_id },
            ),
            _ => finish,
        },
        Stage::LoadingContext => match e {
            HandlerEvent::ContextLoaded(Some(context)) => (
                MessageHandler { stage: Stage::Generating, ..h },
                HandlerAction::GenerateReply {
                    context,
                    chat_title: h.incoming.chat_title,
                    thread_name: None,
                },
            ),
            _ => finish,
        },
        Stage::Generating => match e {
            HandlerEvent::ReplyGenerated(Some(text)) => (
                MessageHandler { stage: Stage::SendingReply, ..h },
                HandlerAction::SendReply { chat_id, text, reply_to: h.incoming.id },
            ),
            HandlerEvent::ReplyGenerated(None) => (
                MessageHandler { stage: Stage::SendingApology, ..h },
                HandlerAction::SendApology { chat_id },
            ),
            _ => finish,
        },
        Stage::SendingReply => match e {
            HandlerEvent::ReplySent(sent) => (
                MessageHandler { stage: Stage::SavingReply, ..h },
                HandlerAction::SaveSent { chat_id, thread_id, sent },
            ),
            _ => finish,
        },
        Stage::SavingReply => finish,
        Stage::SendingApology => finish,
        Stage::Done => finish,
    }
}

impl MessageHandler {
    /// Starts handling `incoming`; the first piece of work is reading the bot's identity.
    pub fn start(incoming: TgMessage) -> (r: (MessageHandler, HandlerAction))
        ensures
            r == handler_start(incoming),
    {
        (MessageHandler { incoming, bot: None, stage: Stage::AwaitingBot }, HandlerAction::GetBot)
    }

    /// Takes the result of the last piece of work and gives the next one.
    pub fn step(&mut self, event: HandlerEvent) -> (a: HandlerAction)
        requires
            event_well_formed(event),
        ensures
            (*final(self), a) == handler_next(*old(self), event),
    {
        let chat_id = self.incoming.chat_id;
        let thread_id = thread_of(&self.incoming);
        match self.stage {
            Stage::AwaitingBot => match event {
                HandlerEvent::BotLoaded(bot) => {
                    self.bot = Some(bot);
                    if self.incoming.text.is_some() {
                        self.stage = Stage::SavingIncoming;
                        HandlerAction::SaveIncoming { chat_id, thread_id }
                    } else {
                        self.stage = Stage::Done;
                        HandlerAction::Finish
                    }
                },
                _ => {
                    self.stage = Stage::Done;
                    HandlerAction::Finish
                },
            },
            Stage::SavingIncoming => match event {
                HandlerEvent::MessageSaved => {
                    let answer = match &self.bot {
                        Some(bot) => should_reply(&self.incoming, bot),
                        None => false,
                    };
                    if answer {
                        self.stage = Stage::ShowingTyping;
                        HandlerAction::ShowTyping { chat_id }
                    } else {
                        self.stage = Stage::Done;
                        HandlerAction::Finish
                    }
                },
                _ => {
                    self.stage = Stage::Done;
                    HandlerAction::Finish
                },
            },
            Stage::ShowingTyping => match event {
                HandlerEvent::TypingShown => {
                    self.stage = Stage::LoadingContext;
                    HandlerAction::LoadContext { chat_id, thread_id }
                },
                _ => {
                    self.stage = Stage::Done;
                    HandlerAction::Finish
                },
            },
            Stage::LoadingContext => match event {
                HandlerEvent::ContextLoaded(Some(context)) => {
                    self.stage = Stage::Generating;
                    let chat_title = clone_opt_string(&self.incoming.chat_title);
                    HandlerAction::GenerateReply { context, chat_title, thread_name: None }
                },
                _ => {
                    self.stage = Stage::Done;
                    HandlerAction::Finish
                },
            },
            Stage::Generating => match event {
                HandlerEvent::ReplyGenerated(Some(text)) => {
                    self.stage = Stage::SendingReply;
                    HandlerAction::SendReply { chat_id, text, reply_to: self.incoming.id }
                },
                HandlerEvent::ReplyGenerated(None) => {
                    self.stage = Stage::SendingApology;
                    HandlerAction::SendApology { chat_id }
                },
                _ => {
                    self.stage = Stage::Done;
                    HandlerAction::Finish
                },
            },
            Stage::SendingReply => match event {
                HandlerEvent::ReplySent(sent) => {
                    self.stage = Stage::SavingReply;
                    HandlerAction::SaveSent { chat_id, thread_id, sent }
                },
                _ => {
                    self.stage = Stage::Done;
                    HandlerAction::Finish
                },
            },
            _ => {
                self.stage = Stage::Done;
                HandlerAction::Finish
            },
        }
    }
}


// ---------------------------------------------------------------------------
// Laws of the handling
// ---------------------------------------------------------------------------

/// The stages in which the bot is answering the message.
pub open spec fn answering(stage: Stage) -> bool {
    ||| stage == Stage::ShowingTyping
    ||| stage == Stage::LoadingContext
    ||| stage == Stage::Generating
    ||| stage == Stage::SendingReply
    ||| stage == Stage::SavingReply
    ||| stage == Stage::SendingApology
}

/// What holds of every handling reached from `MessageHandler::start`: once a message is
/// stored or answered the bot is known; a message is being stored or answered only if it has text; and it is
/// answered only if it is addressed to the bot.
pub open spec fn handler_inv(h: MessageHandler) -> bool {
    &&& h.stage == Stage::AwaitingBot ==> h.bot is None
    &&& (h.stage == Stage::SavingIncoming || answering(h.stage)) ==> h.bot is Some
        && h.incoming.text is Some
    &&& answering(h.stage) ==> addressed_to_bot(h.incoming, h.bot.unwrap())
}

/// The actions that belong to answering a message.
pub open spec fn answer_action(a: HandlerAction) -> bool {
    ||| a is ShowTyping
    ||| a is LoadContext
    ||| a is GenerateReply
    ||| a is SendReply
    ||| a is SaveSent
    ||| a is SendApology
}

/// How far the handling has come; every event moves it forward or ends it.
pub open spec fn stage_rank(stage: Stage) -> int {
    match stage {
        Stage::AwaitingBot => 0,
        Stage::SavingIncoming => 1,
        Stage::ShowingTyping => 2,
        Stage::LoadingContext => 3,
        Stage::Generating => 4,
        Stage::SendingReply => 5,
        Stage::SendingApology => 5,
        Stage::SavingReply => 6,
        Stage::Done => 7,
    }
}

/// Handling starts in a state where the invariant holds.
pub proof fn lemma_start_establishes_inv(incoming: TgMessage)
    ensures
        handler_inv(handler_start(incoming).0),
        handler_start(incoming).1 is GetBot,
{
}

/// The bot answers only what is addressed to it: every step keeps the invariant, and any
/// step whose work belongs to answering (showing "typing", reading the context, asking the
/// model, sending or storing an answer, apologising) handles a message with text that
/// mentions the bot, answers the bot, or came in a private chat.
pub proof fn lemma_answers_only_when_addressed(h: MessageHandler, e: HandlerEvent)
    requires
        handler_inv(h),
    ensures
        handler_inv(handler_next(h, e).0),
        answer_action(handler_next(h, e).1) ==> {
            &&& h.bot is Some
            &&& h.incoming.text is Some
            &&& addressed_to_bot(h.incoming, h.bot.unwrap())
        },
{
}

/// Messages without text (stickers, photos and the like) are neither stored nor answered:
/// the only work done for them is reading the bot's identity.
pub proof fn lemma_textless_message_is_ignored(h: MessageHandler, e: HandlerEvent)
    requires
        handler_inv(h),
        h.incoming.text is None,
    ensures
        handler_next(h, e).1 is Finish,
        handler_next(h, e).0.stage == Stage::Done,
{
}

/// Every text message is stored, under its chat and thread, as soon as the bot is known.
pub proof fn lemma_text_message_is_stored_first(incoming: TgMessage, bot: BotIdentity)
    requires
        incoming.text is Some,
    ensures
        handler_next(handler_start(incoming).0, HandlerEvent::BotLoaded(bot)).1
            == (HandlerAction::SaveIncoming {
            chat_id: incoming.chat_id,
            thread_id: thread_key(incoming.thread_id),
        }),
{
}

/// Handling always comes to an end: each event moves it to a later stage, until it is done,
/// so at most seven events follow the start.
pub proof fn lemma_handling_progresses(h: MessageHandler, e: HandlerEvent)
    ensures
        h.stage != Stage::Done ==> stage_rank(handler_next(h, e).0.stage) > stage_rank(h.stage),
        h.stage == Stage::Done ==> handler_next(h, e).0.stage == Stage::Done
            && handler_next(h, e).1 is Finish,
        0 <= stage_rank(h.stage) <= 7,
{
}

/// A failed answer is followed by the apology in the same chat; a good one is sent as a
/// reply to the incoming message.
pub proof fn lemma_answer_or_apology(h: MessageHandler, reply: Option<String>)
    requires
        h.stage == Stage::Generating,
    ensures
        reply is None ==> handler_next(h, HandlerEvent::ReplyGenerated(reply)).1 == (
        HandlerAction::SendApology { chat_id: h.incoming.chat_id }),
        reply matches Some(t) ==> handler_next(h, HandlerEvent::ReplyGenerated(reply)).1 == (
        HandlerAction::SendReply { chat_id: h.incoming.chat_id, text: t, reply_to: h.incoming.id }),
{
}


/// The stored form keeps what the message says: its identifier and reply target widened to
/// 64 bits (no reply target where it answers nothing), the sender's identifier and user name
/// (0 and `FALLBACK_NAME` without a sender, `FALLBACK_NAME` without a user name), its text,
/// its quote, and the name of its forward origin (nothing where it was not forwarded).
pub proof fn lemma_stored_form_keeps_message(r: ChatMessage, msg: TgMessage, timestamp: Timestamp)
    requires
        is_stored_form(r, msg, timestamp),
    ensures
        r.message_id == msg.id as i64,
        msg.reply_to_id is None ==> r.reply_to_id is None,
        msg.reply_to_id matches Some(id) ==> r.reply_to_id == Some(id as i64),
        msg.from is None ==> r.user_id == 0 && r.user_name@ == FALLBACK_NAME@,
        msg.from matches Some(u) ==> r.user_id == u.id as i64,
        msg.from matches Some(u) ==> (u.username matches Some(n) ==> r.user_name@ == n@),
        msg.from matches Some(u) ==> (u.username is None ==> r.user_name@ == FALLBACK_NAME@),
        msg.text matches Some(t) ==> r.content@ == t@,
        r.quote == msg.quote,
        msg.forward_origin is None ==> r.forward_from is None,
        msg.forward_origin matches Some(o) ==> (r.forward_from matches Some(f) && f@ == forward_name(o)),
        r.timestamp == timestamp,
{
}

/// A message is addressed to the bot exactly when its text holds `@` and the bot's user name,
/// or it answers a message of the bot, or it came in a private chat; each of the three is
/// enough on its own, whatever the others are.
pub proof fn lemma_addressed_cases(msg: TgMessage, bot: BotIdentity)
    ensures
        (msg.text matches Some(t) && contains_text(t@, seq!['@'] + name_or_fallback(bot.username)))
            ==> addressed_to_bot(msg, bot),
        msg.reply_to_sender == Some(bot.id) ==> addressed_to_bot(msg, bot),
        msg.is_private ==> addressed_to_bot(msg, bot),
        addressed_to_bot(msg, bot) ==> (msg.text matches Some(t) && contains_text(
            t@,
            seq!['@'] + name_or_fallback(bot.username),
        )) || msg.reply_to_sender == Some(bot.id) || msg.is_private,
{
}

/// Once the incoming message is stored, the bot goes on to answer (showing "typing" in the
/// chat first) exactly when the message mentions it, answers one of its messages, or came in a
/// private chat; otherwise the handling ends.
pub proof fn lemma_stored_message_answered_when_addressed(h: MessageHandler, bot: BotIdentity)
    requires
        h.stage == Stage::SavingIncoming,
        h.bot == Some(bot),
    ensures
        ({
            let mentioned = h.incoming.text matches Some(t) && contains_text(
                t@,
                seq!['@'] + name_or_fallback(bot.username),
            );
            let wanted = mentioned || h.incoming.reply_to_sender == Some(bot.id)
                || h.incoming.is_private;
            &&& wanted ==> handler_next(h, HandlerEvent::MessageSaved) == (
            MessageHandler { stage: Stage::ShowingTyping, ..h },
            HandlerAction::ShowTyping { chat_id: h.incoming.chat_id },
            )
            &&& !wanted ==> handler_next(h, HandlerEvent::MessageSaved) == (
            MessageHandler { stage: Stage::Done, ..h },
            HandlerAction::Finish,
            )
        }),
{
}

} // verus!
