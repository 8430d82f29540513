//! Prompts for the generative model and the XML rendering of a conversation.
use vstd::prelude::*;
use vstd::string::*;
use crate::models::{clone_messages, ChatContext, ChatMessage};
use crate::text::{decimal_text, escape_text, push_decimal, push_escaped};
use crate::time::{chrono_utc_text, TIME_FORMAT};

verus! {

/// Opening words of the reply prompt, before the place of the conversation.
pub const REPLY_INTRO: &'static str = "Ты — участник беседы ";

/// Words between the place of the conversation and the bot's user name.
pub const REPLY_NICK: &'static str = ". Твой ник: @";

/// The rules of conversation that close the reply prompt.
pub const REPLY_RULES: &'static str = ".\n\nПРАВИЛА ОБЩЕНИЯ В ЛЮБОМ ЧАТЕ:\n1. Стиль: Лаконичный и неформальный. Пиши как в мессенджерах: коротко, по делу, без лишней вежливости и официоза.\n2. Форматирование: НЕ используй Markdown (никаких звездочек и курсива). Пиши чистым текстом. Избегай сложных списков и заголовков.\n3. Идентичность: Ты — нейросеть, встроенная в Telegram. Не притворяйся человеком, но и не отвечай как сухой робот-помощник. Будь органичной частью беседы.\n4. Контекст: Тебе передается история сообщений в формате XML. Внимательно следи за атрибутами 'author', 'reply_to', 'quote' и 'forward_from' чтобы понимать, кто автор сообщения и к кому обращается. Твой ответ — это естественное продолжение беседы.\n5. Ограничения доступа: Ты не можешь открывать внешние ссылки. Если пользователь присылает ссылку, не пытайся ее анализировать или переходить по ней. Честно отвечай, что не видишь содержимое внешних ресурсов. Любые попытки сгенерировать информацию из ссылок считаются недостоверными и запрещены.\n\nФОРМАТ ИСТОРИИ:\n- <summary>: краткое описание контекста диалога.\n- <msg id=\"...\">: сообщение.\nАтрибуты внутри тега msg могут включать:\n- reply_to: id сообщения, на которое дан ответ.\n- quote: текст цитируемого фрагмента, если ответ был на конкретную часть.\n- forward_from: имя пользователя или чата, от которого было переслано сообщение.\nЕсли атрибут отсутствует, значит, событие не происходило. Не пытайся искать их там, где их нет.\n\nПОДСКАЗКИ:\n- если ты участник беседы в группе и хочешь обратиться к пользователю явно, поставь @ перед его ником, чтобы он точно не пропустил твоё сообщение.\n- идентификаторы, используемые в формате истории, другим пользователям не видны, они обрабатываются клиентскими приложениями и даны тебе для удобства отслеживания ответов. В большенстве случаев не стоит о них писать.\n- иногда не стоит прямо отвечать на текст пересланных сообщений, возможно они только добавляют контекста.";

/// Place of the conversation in a group: the words before the group's title.
pub const IN_GROUP: &'static str = "в группе \"";

/// Place of the conversation in a topic: the words between the group's title and the topic.
pub const INSIDE_TOPIC: &'static str = "\" внутри темы \"";

/// Closing quotation mark of a title.
pub const CLOSING_QUOTE: &'static str = "\"";

/// Place of the conversation in a private chat.
pub const PRIVATE_DIALOGUE: &'static str = "в личном диалоге с пользователем";

/// The whole instruction for condensing a conversation into a summary.
pub const SUMMARY_PROMPT: &'static str = "Ты — ассистент, помогающий боту поддерживать актуальный контекст беседы. Твоя задача — обновлять историю (summary) чата на основе новых сообщений.\n\nПРАВИЛА:\n1. Анализируй текущее summary и массив новых сообщений.\n2. Объедини их в одно обновленное summary, которое станет опорным для будущих ответов бота.\n3. Сохраняй ключевые детали: о чем договорились, какие вопросы обсуждали, важные имена или факты.\n4. Будь максимально краток. Не пиши \"в чате обсудили\", просто фиксируй суть.\n5. Формат: чистый текст без Markdown, без списков, без лишней вежливости.\n6. Если в новых сообщениях ничего важного нет, просто верни текущее summary без изменений.\n\nВХОДНЫЕ ДАННЫЕ:\n- Предыдущее summary: текущее состояние контекста.\n- Новые сообщения: массив в формате JSON/XML (атрибуты author, content, quote, reply_to).\n\nТвоя цель — обеспечить плавный переход между удаляемой частью истории и сохраняемым контекстом.";

/// The view of an optional string slice.
pub open spec fn opt_str_view(s: Option<&str>) -> Option<Seq<char>> {
    match s {
        Some(t) => Some(t@),
        None => None,
    }
}

/// Where the conversation takes place, as the reply prompt words it.
pub open spec fn location_text(chat_title: Option<Seq<char>>, thread_name: Option<Seq<char>>) -> Seq<char> {
    match chat_title {
        Some(title) => match thread_name {
            Some(topic) => IN_GROUP@ + title + INSIDE_TOPIC@ + topic + CLOSING_QUOTE@,
            None => IN_GROUP@ + title + CLOSING_QUOTE@,
        },
        None => PRIVATE_DIALOGUE@,
    }
}

/// The system instruction for answering in a conversation.
pub open spec fn reply_prompt_text(
    bot_username: Seq<char>,
    chat_title: Option<Seq<char>>,
    thread_name: Option<Seq<char>>,
) -> Seq<char> {
    REPLY_INTRO@ + location_text(chat_title, thread_name) + REPLY_NICK@ + bot_username + REPLY_RULES@
}

/// Builds the system instruction for answering in a conversation: the place of the
/// conversation (a topic of a group, a group, or a private dialogue), the bot's user name
/// and the rules of conversation.
pub fn reply_prompt(bot_username: &str, chat_title: Option<&str>, thread_name: Option<&str>) -> (r: String)
    ensures
        r@ == reply_prompt_text(bot_username@, opt_str_view(chat_title), opt_str_view(thread_name)),
{
    let mut out = String::new();
    out.append(REPLY_INTRO);
    match chat_title {
        Some(title) => {
            out.append(IN_GROUP);
            out.append(title);
            match thread_name {
                Some(topic) => {
                    out.append(INSIDE_TOPIC);
                    out.append(topic);
                    out.append(CLOSING_QUOTE);
                },
                None => {
                    out.append(CLOSING_QUOTE);
                },
            }
        },
        None => {
            out.append(PRIVATE_DIALOGUE);
        },
    }
    out.append(REPLY_NICK);
    out.append(bot_username);
    out.append(REPLY_RULES);
    out
}

/// The system instruction for condensing a conversation into a summary.
pub fn summary_prompt() -> (r: String)
    ensures
        r@ == SUMMARY_PROMPT@,
{
    String::from_str(SUMMARY_PROMPT)
}


// ---------------------------------------------------------------------------
// The conversation as XML
// ---------------------------------------------------------------------------

/// Opening of the summary block.
pub const SUMMARY_OPEN: &'static str = "<summary>\n";

/// Closing of the summary block.
pub const SUMMARY_CLOSE: &'static str = "\n</summary>\n";

/// Start of a message tag, before its identifier.
pub const MSG_OPEN: &'static str = "<msg id=\"";

/// Between the identifier and the time of a message.
pub const MSG_TIME: &'static str = "\" time=\"";

/// Between the time and the author of a message.
pub const MSG_AUTHOR: &'static str = "\" author=\"";

/// After the author: the closing quotation mark and a space.
pub const MSG_AUTHOR_END: &'static str = "\" ";

/// Start of the attribute that names the answered message.
pub const REPLY_TO_OPEN: &'static str = " reply_to=\"";

/// A quotation mark.
pub const QUOTATION_MARK: &'static str = "\"";

/// End of a tag.
pub const TAG_END: &'static str = ">";

/// Opening of a quote element.
pub const QUOTE_OPEN: &'static str = "\n<quote>";

/// Closing of a quote element.
pub const QUOTE_CLOSE: &'static str = "</quote>";

/// Opening of a forward element.
pub const FORWARD_OPEN: &'static str = "\n<forward_from>";

/// Closing of a forward element, as the history format writes it.
pub const FORWARD_CLOSE: &'static str = "</orward_from_sender_name>";

/// A line break.
pub const LINE_BREAK: &'static str = "\n";

/// End of a message element.
pub const MSG_CLOSE: &'static str = "\n</msg>\n";

/// The summary block: empty when there is no summary.
pub open spec fn summary_block(summary: Seq<char>) -> Seq<char> {
    if summary.len() == 0 {
        Seq::<char>::empty()
    } else {
        SUMMARY_OPEN@ + summary + SUMMARY_CLOSE@
    }
}

/// The `reply_to` attribute: present only for an answer to a message other than the one
/// right before it.
pub open spec fn reply_attr(reply_to_id: Option<i64>, prev_id: Option<i64>) -> Seq<char> {
    match reply_to_id {
        Some(id) => if prev_id == Some(id) {
            Seq::<char>::empty()
        } else {
            REPLY_TO_OPEN@ + decimal_text(id as int) + QUOTATION_MARK@
        },
        None => Seq::<char>::empty(),
    }
}

/// The quote element, with its text escaped; empty when there is no quote.
pub open spec fn quote_block(quote: Option<String>) -> Seq<char> {
    match quote {
        Some(q) => QUOTE_OPEN@ + escape_text(q@) + QUOTE_CLOSE@,
        None => Seq::<char>::empty(),
    }
}

/// The forward element, with its text escaped; empty when the message was not forwarded.
pub open spec fn forward_block(forward_from: Option<String>) -> Seq<char> {
    match forward_from {
        Some(f) => FORWARD_OPEN@ + escape_text(f@) + FORWARD_CLOSE@,
        None => Seq::<char>::empty(),
    }
}

/// The start tag of a message with its attributes.
pub open spec fn message_head(m: ChatMessage, prev_id: Option<i64>) -> Seq<char> {
    MSG_OPEN@ + decimal_text(m.message_id as int) + MSG_TIME@ + chrono_utc_text(
        m.timestamp.spec_secs(),
        m.timestamp.spec_nanos(),
        TIME_FORMAT@,
    ) + MSG_AUTHOR@ + m.user_name@ + MSG_AUTHOR_END@ + reply_attr(m.reply_to_id, prev_id) + TAG_END@
}

/// One message as an XML element; `prev_id` is the identifier of the message before it.
pub open spec fn message_xml(m: ChatMessage, prev_id: Option<i64>) -> Seq<char> {
    message_head(m, prev_id) + quote_block(m.quote) + forward_block(m.forward_from) + LINE_BREAK@
        + escape_text(m.content@) + MSG_CLOSE@
}

/// The identifier of the message before position `i`, if there is one.
pub open spec fn prev_id_at(msgs: Seq<ChatMessage>, i: int) -> Option<i64> {
    if i <= 0 {
        None
    } else {
        Some(msgs[i - 1].message_id)
    }
}

/// All messages as XML elements, in order.
pub open spec fn messages_xml(msgs: Seq<ChatMessage>) -> Seq<char>
    decreases msgs.len(),
{
    if msgs.len() == 0 {
        Seq::<char>::empty()
    } else {
        messages_xml(msgs.drop_last()) + message_xml(msgs.last(), prev_id_at(msgs, msgs.len() - 1))
    }
}

/// The conversation as the model reads it: the summary block, then every message.
pub open spec fn context_xml(summary: Seq<char>, msgs: Seq<ChatMessage>) -> Seq<char> {
    summary_block(summary) + messages_xml(msgs)
}

/// Rendering grows with the conversation: the XML of a context with one more message is the
/// XML of the context before it followed by that message's element, whose `reply_to` is
/// judged against the message before it.
pub proof fn lemma_xml_of_appended_message(summary: Seq<char>, msgs: Seq<ChatMessage>, m: ChatMessage)
    ensures
        context_xml(summary, msgs.push(m)) == context_xml(summary, msgs) + message_xml(
            m,
            if msgs.len() == 0 {
                None
            } else {
                Some(msgs.last().message_id)
            },
        ),
{
    let p = msgs.push(m);
    assert(p.drop_last() =~= msgs);
    assert(p.last() == m);
    if msgs.len() > 0 {
        assert(p[p.len() - 2] == msgs.last());
    }
    assert(summary_block(summary) + (messages_xml(msgs) + message_xml(m, prev_id_at(p, p.len() - 1)))
        =~= summary_block(summary) + messages_xml(msgs) + message_xml(m, prev_id_at(p, p.len() - 1)));
}

/// Outside groups the topic plays no part: the reply prompt of a private dialogue is the same
/// whatever topic is given.
pub proof fn lemma_private_prompt_ignores_topic(bot_username: Seq<char>, t1: Option<Seq<char>>, t2: Option<Seq<char>>)
    ensures
        reply_prompt_text(bot_username, None, t1) == reply_prompt_text(bot_username, None, t2),
{
}

fn push_reply_attr(out: &mut String, reply_to_id: Option<i64>, prev_id: Option<i64>)
    ensures
        final(out)@ == old(out)@ + reply_attr(reply_to_id, prev_id),
{
    match reply_to_id {
        Some(id) => {
            let same = match prev_id {
                Some(p) => p == id,
                None => false,
            };
            if !same {
                out.append(REPLY_TO_OPEN);
                push_decimal(out, id);
                out.append(QUOTATION_MARK);
            }
        },
        None => {},
    }
    assert(out@ =~= old(out)@ + reply_attr(reply_to_id, prev_id));
}

fn push_message_xml(out: &mut String, m: &ChatMessage, prev_id: Option<i64>)
    ensures
        final(out)@ == old(out)@ + message_xml(*m, prev_id),
{
    out.append(MSG_OPEN);
    push_decimal(out, m.message_id);
    out.append(MSG_TIME);
    let time = m.timestamp.display();
    out.append(time.as_str());
    out.append(MSG_AUTHOR);
    out.append(m.user_name.as_str());
    out.append(MSG_AUTHOR_END);
    push_reply_attr(out, m.reply_to_id, prev_id);
    out.append(TAG_END);
    assert(out@ =~= old(out)@ + message_head(*m, prev_id));
    let ghost after_head = out@;
    match &m.quote {
        Some(q) => {
            out.append(QUOTE_OPEN);
            push_escaped(out, q.as_str());
            out.append(QUOTE_CLOSE);
        },
        None => {},
    }
    assert(out@ =~= after_head + quote_block(m.quote));
    let ghost after_quote = out@;
    match &m.forward_from {
        Some(f) => {
            out.append(FORWARD_OPEN);
            push_escaped(out, f.as_str());
            out.append(FORWARD_CLOSE);
        },
        None => {},
    }
    assert(out@ =~= after_quote + forward_block(m.forward_from));
    out.append(LINE_BREAK);
    push_escaped(out, m.content.as_str());
    out.append(MSG_CLOSE);
    assert(out@ =~= old(out)@ + message_xml(*m, prev_id));
}

/// Renders a thread's context as XML: the summary, if there is one, then each message with
/// its identifier, time, author and `reply_to` (left out for an answer to the message right
/// before it), its quote and forward origin, and its text, with angle brackets escaped.
pub fn format_context_to_xml(ctx: &ChatContext) -> (r: String)
    ensures
        r@ == context_xml(ctx.summary@, ctx.messages@),
{
    let mut out = String::new();
    if !ctx.summary.as_str().is_empty() {
        out.append(SUMMARY_OPEN);
        out.append(ctx.summary.as_str());
        out.append(SUMMARY_CLOSE);
    }
    assert(out@ =~= summary_block(ctx.summary@));
    let ghost head = out@;
    let n = ctx.messages.len();
    let mut prev_id: Option<i64> = None;
    assert(ctx.messages@.take(0) =~= Seq::<ChatMessage>::empty());
    for i in 0..n
        invariant
            n == ctx.messages@.len(),
            out@ == head + messages_xml(ctx.messages@.take(i as int)),
            prev_id == prev_id_at(ctx.messages@, i as int),
    {
        let m = &ctx.messages[i];
        push_message_xml(&mut out, m, prev_id);
        proof {
            let t = ctx.messages@.take(i + 1);
            assert(t.drop_last() =~= ctx.messages@.take(i as int));
            assert(t.last() == *m);
            assert(prev_id_at(t, i as int) == prev_id_at(ctx.messages@, i as int));
            assert(out@ =~= head + messages_xml(t));
        }
        prev_id = Some(m.message_id);
    }
    assert(ctx.messages@.take(n as int) =~= ctx.messages@);
    out
}


// ---------------------------------------------------------------------------
// Requests to the model and its answers
// ---------------------------------------------------------------------------

/// The model used when none is chosen.
pub const DEFAULT_MODEL: &'static str = "gemini-2.5-flash";

/// Start of the address of the content generation endpoint, before the model's name.
pub const API_BASE: &'static str = "https://generativelanguage.googleapis.com/v1beta/models/";

/// Between the model's name and the API key in the endpoint's address.
pub const API_METHOD: &'static str = ":generateContent?key=";

/// A conversation is condensed only when it holds more messages than this.
pub const SUMMARY_THRESHOLD: usize = 100;

/// How many of the newest messages stay out of a summary.
pub const KEPT_MESSAGES: usize = 50;

/// Text of the error for an answer without any text.
pub const NO_ANSWER_TEXT: &'static str = "Не удалось получить ответ от API";

/// Text of the error for a conversation too short to condense.
pub const NOT_ENOUGH_TEXT: &'static str = "Недостаточно сообщений для архивации";

/// One piece of text in a request or an answer.
#[derive(Debug)]
pub struct GeminiPart {
    pub text: String,
}

/// A turn of a request or an answer, made of parts.
#[derive(Debug)]
pub struct GeminiContent {
    pub parts: Vec<GeminiPart>,
}

/// A request: the system instruction and the turns of the conversation.
#[derive(Debug)]
pub struct GeminiRequest {
    pub system_instruction: GeminiContent,
    pub contents: Vec<GeminiContent>,
}

/// One candidate answer.
#[derive(Debug)]
pub struct Candidate {
    pub content: GeminiContent,
}

/// An answer: the candidates, if the model gave any.
#[derive(Debug)]
pub struct GeminiResponse {
    pub candidates: Option<Vec<Candidate>>,
}

/// Why the model gave no usable answer.
#[derive(Debug, Clone, Copy, PartialEq, Eq, Structural)]
pub enum GeminiError {
    /// The answer held no candidate, or its first candidate held no part.
    NoAnswer,
}

impl GeminiError {
    /// The text of the error.
    pub fn message(&self) -> (r: String)
        ensures
            r@ == NO_ANSWER_TEXT@,
    {
        String::from_str(NO_ANSWER_TEXT)
    }
}

/// Why a conversation cannot be condensed.
#[derive(Debug, Clone, Copy, PartialEq, Eq, Structural)]
pub enum SummaryError {
    /// The conversation holds no more than `SUMMARY_THRESHOLD` messages.
    NotEnoughMessages,
}

impl SummaryError {
    /// The text of the error.
    pub fn message(&self) -> (r: String)
        ensures
            r@ == NOT_ENOUGH_TEXT@,
    {
        String::from_str(NOT_ENOUGH_TEXT)
    }
}

/// A content made of exactly one part with the text `text`.
pub open spec fn single_part(c: GeminiContent, text: Seq<char>) -> bool {
    c.parts@.len() == 1 && c.parts@[0].text@ == text
}

/// A request with the system instruction `system` and one turn with the text `user`.
pub open spec fn single_turn(req: GeminiRequest, system: Seq<char>, user: Seq<char>) -> bool {
    &&& single_part(req.system_instruction, system)
    &&& req.contents@.len() == 1
    &&& single_part(req.contents@[0], user)
}

/// The text of an answer: that of the first part of the first candidate, if both exist.
pub open spec fn answer_text(resp: GeminiResponse) -> Option<Seq<char>> {
    match resp.candidates {
        Some(cs) => if cs@.len() > 0 && cs@[0].content.parts@.len() > 0 {
            Some(cs@[0].content.parts@[0].text@)
        } else {
            None
        },
        None => None,
    }
}

fn single_content(text: String) -> (r: GeminiContent)
    ensures
        single_part(r, text@),
{
    let mut parts: Vec<GeminiPart> = Vec::new();
    parts.push(GeminiPart { text });
    GeminiContent { parts }
}

/// A request with the system instruction `system` and the single turn `user`.
pub fn build_request(system: String, user: String) -> (r: GeminiRequest)
    ensures
        single_turn(r, system@, user@),
{
    let system_instruction = single_content(system);
    let mut contents: Vec<GeminiContent> = Vec::new();
    contents.push(single_content(user));
    GeminiRequest { system_instruction, contents }
}

/// The text of an answer: the first part of the first candidate, or `NoAnswer`.
pub fn reply_text(resp: GeminiResponse) -> (r: Result<String, GeminiError>)
    ensures
        match answer_text(resp) {
            Some(t) => r matches Ok(s) && s@ == t,
            None => r == Err::<String, GeminiError>(GeminiError::NoAnswer),
        },
{
    match resp.candidates {
        Some(mut cs) => {
            if cs.len() == 0 {
                return Err(GeminiError::NoAnswer);
            }
            let first = cs.swap_remove(0);
            let mut parts = first.content.parts;
            if parts.len() == 0 {
                return Err(GeminiError::NoAnswer);
            }
            let part = parts.swap_remove(0);
            Ok(part.text)
        },
        None => Err(GeminiError::NoAnswer),
    }
}

/// A request for a summary, and the identifier of the newest message it covers.
#[derive(Debug)]
pub struct SummaryJob {
    pub request: GeminiRequest,
    pub last_id: i64,
}

/// The number of oldest messages that a summary of `n` messages covers.
pub open spec fn summarized_count(n: int) -> int {
    n - KEPT_MESSAGES
}

/// A summary leaves out exactly the newest fifty messages: of a conversation of more than a
/// hundred messages it covers the oldest `n - 50`, at least fifty-one of them, and the newest
/// message it covers is the fifty-first from the end.
pub proof fn lemma_summary_leaves_newest_fifty(n: int)
    requires
        n > 100,
    ensures
        summarized_count(n) == n - 50,
        n - summarized_count(n) == 50,
        51 <= summarized_count(n) < n,
        summarized_count(n) - 1 == n - 51,
{
}

/// Settings for talking to the model: the API key, the model's name and the bot's user name.
#[derive(Clone, Debug)]
pub struct GeminiClient {
    api_key: String,
    model: String,
    name: String,
}

impl GeminiClient {
    /// The API key.
    pub closed spec fn spec_api_key(&self) -> Seq<char> {
        self.api_key@
    }

    /// The model's name.
    pub closed spec fn spec_model(&self) -> Seq<char> {
        self.model@
    }

    /// The bot's user name.
    pub closed spec fn spec_name(&self) -> Seq<char> {
        self.name@
    }

    /// Settings with the given key and name; the model is `DEFAULT_MODEL` unless one is given.
    pub fn new(api_key: String, name: String, model: Option<String>) -> (r: Self)
        ensures
            r.spec_api_key() == api_key@,
            r.spec_name() == name@,
            r.spec_model() == match model {
                Some(m) => m@,
                None => DEFAULT_MODEL@,
            },
    {
        let model = match model {
            Some(m) => m,
            None => String::from_str(DEFAULT_MODEL),
        };
        GeminiClient { api_key, model, name }
    }

    /// The address that requests are posted to: the endpoint of the model with the key.
    pub fn request_url(&self) -> (r: String)
        ensures
            r@ == API_BASE@ + self.spec_model() + API_METHOD@ + self.spec_api_key(),
    {
        let mut out = String::from_str(API_BASE);
        out.append(self.model.as_str());
        out.append(API_METHOD);
        out.append(self.api_key.as_str());
        out
    }

    /// The request for an answer in a conversation: the reply prompt for the bot's name and
    /// the place of the conversation, and the conversation as XML.
    pub fn reply_request(&self, context: &ChatContext, chat_title: Option<&str>, thread_name: Option<&str>) -> (r: GeminiRequest)
        ensures
            single_turn(
                r,
                reply_prompt_text(self.spec_name(), opt_str_view(chat_title), opt_str_view(thread_name)),
                context_xml(context.summary@, context.messages@),
            ),
    {
        let system = reply_prompt(self.name.as_str(), chat_title, thread_name);
        let user = format_context_to_xml(context);
        build_request(system, user)
    }

    /// The request for a new summary of a conversation of more than `SUMMARY_THRESHOLD`
    /// messages: the summary prompt, and the current summary with all but the newest
    /// `KEPT_MESSAGES` messages as XML. `last_id` is the identifier of the newest message
    /// that the summary covers.
    pub fn summary_request(&self, context: &ChatContext) -> (r: Result<SummaryJob, SummaryError>)
        ensures
            r is Err <==> context.messages@.len() <= SUMMARY_THRESHOLD,
            r is Err ==> r == Err::<SummaryJob, SummaryError>(SummaryError::NotEnoughMessages),
            r matches Ok(job) ==> {
                let n = context.messages@.len() as int;
                &&& single_turn(
                    job.request,
                    SUMMARY_PROMPT@,
                    context_xml(context.summary@, context.messages@.take(summarized_count(n))),
                )
                &&& job.last_id == context.messages@[summarized_count(n) - 1].message_id
            },
            r matches Ok(job) ==> {
                let n = context.messages@.len() as int;
                &&& single_turn(
                    job.request,
                    SUMMARY_PROMPT@,
                    context_xml(context.summary@, context.messages@.take(n - 50)),
                )
                &&& job.last_id == context.messages@[n - 51].message_id
            },
    {
        let msg_count = context.messages.len();
        if msg_count <= SUMMARY_THRESHOLD {
            return Err(SummaryError::NotEnoughMessages);
        }
        let split_idx = msg_count - KEPT_MESSAGES;
        let to_summarize = clone_messages(&context.messages, 0, split_idx);
        let last_id = context.messages[split_idx - 1].message_id;
        let older = ChatContext { summary: context.summary.clone(), messages: to_summarize };
        let user = format_context_to_xml(&older);
        assert(context.messages@.subrange(0, split_idx as int) =~= context.messages@.take(split_idx as int));
        let request = build_request(summary_prompt(), user);
        Ok(SummaryJob { request, last_id })
    }
}

} // verus!
