//! The interaction framework: the values a behaviour module hands back to
//! the transport, the module interface, and the router that dispatches
//! inbound commands, free-text messages and callback actions to the
//! registered modules.

pub mod powerful_nahruk;
pub mod reactions;

use vstd::prelude::*;
use vstd::string::*;

use crate::config::GameConfig;
use crate::database::{Database, Pig};
use crate::game::{spec_pig_command_post, PigGameModule};
use crate::modules::powerful_nahruk::{spec_blocked_text, spec_nahruk_triggers, PowerfulNahrukModule};
use crate::modules::reactions::{spec_is_reaction, ReactionsModule};
use crate::text::{
    join_with, spec_join_with, spec_split_words, split_words, str_eq, views_of,
};

verus! {

/// One interactive control: a label and the callback payload it sends back.
pub struct Button {
    pub label: String,
    pub action: String,
}

/// Rows of interactive controls attached to a message.
pub struct Keyboard {
    pub rows: Vec<Vec<Button>>,
}

/// A chat message to send: its text, an optional set of controls, and
/// whether it answers the inbound message directly.
pub struct Response {
    pub text: String,
    pub keyboard: Option<Keyboard>,
    pub reply: bool,
}

/// What a module asks the transport to do with a free-text message.
pub enum MessageAction {
    /// Send a message to the chat.
    Send(Response),
    /// Attach the given reaction to the inbound message.
    React(String),
}

/// A rejected input: reported to the user with a specific message, never
/// logged as an internal error.
#[derive(Clone, Copy, Debug, PartialEq, Eq, Structural)]
pub enum ValidationError {
    /// A proposed display name has too many user-perceived characters.
    NameTooLong,
    /// A callback payload with a known action but a mangled argument.
    MalformedPayload,
    /// A callback payload with no known action name.
    UnknownAction,
}

/// A rejected actor: reported as an ephemeral notice, never logged.
#[derive(Clone, Copy, Debug, PartialEq, Eq, Structural)]
pub enum AuthorizationError {
    /// The acting player is not the player the control was issued for.
    NotOwner,
}

/// The interface of a behaviour module.  Each module states, through its
/// spec functions, which commands it owns and what its answers mean, and
/// its handlers are held to those statements.
pub trait BotModule {
    /// The module's display name.
    spec fn spec_name(&self) -> Seq<char>;

    /// The command keywords and descriptions the module declares.
    spec fn spec_commands(&self) -> Seq<(Seq<char>, Seq<char>)>;

    /// What the command handler's answer and storage effect mean.
    spec fn spec_command_post(
        &self,
        cmd: Seq<char>,
        s: Seq<Pig>,
        t: Seq<Pig>,
        r: Option<Response>,
        chat_id: i64,
        user_id: i64,
        username: Seq<char>,
        args: Seq<Seq<char>>,
        message_id: i64,
        now_ms: u64,
        c: GameConfig,
    ) -> bool;

    /// What a consumed free-text message means.
    spec fn spec_message_action(&self, text: Seq<char>, a: MessageAction) -> bool;

    /// The messages the module consumes for certain.
    spec fn spec_must_consume(&self, text: Seq<char>) -> bool;

    /// The module's display name.
    fn name(&self) -> (r: &'static str)
        ensures
            r@ == self.spec_name(),
    ;

    /// The command keywords and descriptions the module declares.
    fn commands(&self) -> (r: Vec<(&'static str, &'static str)>)
        ensures
            r@.len() == self.spec_commands().len(),
            forall|i: int|
                0 <= i < r@.len() ==> (#[trigger] r@[i]).0@ == self.spec_commands()[i].0
                    && r@[i].1@ == self.spec_commands()[i].1,
    ;

    /// Handles one command this module declared.
    fn handle_command(
        &self,
        chat_id: i64,
        user_id: i64,
        username: &str,
        command: &str,
        args: &Vec<String>,
        message_id: i64,
        now_ms: u64,
        db: &mut Database,
        config: &GameConfig,
    ) -> (r: Option<Response>)
        requires
            old(db).wf(),
            config.wf(),
        ensures
            final(db).wf(),
            final(db).loot_rows() == old(db).loot_rows(),
            self.spec_command_post(
                command@,
                old(db).pig_rows(),
                final(db).pig_rows(),
                r,
                chat_id,
                user_id,
                username@,
                views_of(args@),
                message_id,
                now_ms,
                *config,
            ),
    ;

    /// Offers the module a free-text message; the module reports what it
    /// consumed by answering with an action.
    fn handle_message(&self, text: &str, db: &Database, config: &GameConfig) -> (r: Option<
        MessageAction,
    >)
        requires
            db.wf(),
            config.wf(),
        ensures
            r matches Some(a) ==> self.spec_message_action(text@, a),
            self.spec_must_consume(text@) ==> r is Some,
    ;
}

/// The command table of the creature game.
pub open spec fn spec_pig_game_command_pairs() -> Seq<(Seq<char>, Seq<char>)> {
    seq![
        ("pig"@, "Create a new pig"@),
        ("grow"@, "Feed your pig"@),
        ("my"@, "Show your pig"@),
        ("pigstats"@, "Show pig statistics"@),
        ("top"@, "Show the five heaviest pigs"@),
        ("name"@, "Rename your pig"@),
    ]
}

impl BotModule for PigGameModule {
    open spec fn spec_name(&self) -> Seq<char> {
        "Pig Game"@
    }

    open spec fn spec_commands(&self) -> Seq<(Seq<char>, Seq<char>)> {
        spec_pig_game_command_pairs()
    }

    open spec fn spec_command_post(
        &self,
        cmd: Seq<char>,
        s: Seq<Pig>,
        t: Seq<Pig>,
        r: Option<Response>,
        chat_id: i64,
        user_id: i64,
        username: Seq<char>,
        args: Seq<Seq<char>>,
        message_id: i64,
        now_ms: u64,
        c: GameConfig,
    ) -> bool {
        r matches Some(resp) && spec_pig_command_post(
            cmd,
            s,
            t,
            resp,
            chat_id,
            user_id,
            username,
            args,
            message_id,
            now_ms,
            c,
        )
    }

    open spec fn spec_message_action(&self, text: Seq<char>, a: MessageAction) -> bool {
        false
    }

    open spec fn spec_must_consume(&self, text: Seq<char>) -> bool {
        false
    }

    fn name(&self) -> (r: &'static str) {
        "Pig Game"
    }

    fn commands(&self) -> (r: Vec<(&'static str, &'static str)>) {
        let mut v: Vec<(&'static str, &'static str)> = Vec::new();
        v.push(("pig", "Create a new pig"));
        v.push(("grow", "Feed your pig"));
        v.push(("my", "Show your pig"));
        v.push(("pigstats", "Show pig statistics"));
        v.push(("top", "Show the five heaviest pigs"));
        v.push(("name", "Rename your pig"));
        proof {
            let p = spec_pig_game_command_pairs();
            assert forall|i: int|
                0 <= i < v@.len() implies (#[trigger] v@[i]).0@ == p[i].0 && v@[i].1@
                == p[i].1 by {
                if i == 0 {
                } else if i == 1 {
                } else if i == 2 {
                } else if i == 3 {
                } else if i == 4 {
                } else {
                }
            }
        }
        v
    }

    fn handle_command(
        &self,
        chat_id: i64,
        user_id: i64,
        username: &str,
        command: &str,
        args: &Vec<String>,
        message_id: i64,
        now_ms: u64,
        db: &mut Database,
        config: &GameConfig,
    ) -> (r: Option<Response>) {
        Some(
            self.handle_pig_command(
                chat_id,
                user_id,
                username,
                command,
                args,
                message_id,
                now_ms,
                db,
                config,
            ),
        )
    }

    fn handle_message(&self, text: &str, db: &Database, config: &GameConfig) -> (r: Option<
        MessageAction,
    >) {
        None
    }
}

impl BotModule for PowerfulNahrukModule {
    open spec fn spec_name(&self) -> Seq<char> {
        "Powerful Nahruk"@
    }

    open spec fn spec_commands(&self) -> Seq<(Seq<char>, Seq<char>)> {
        Seq::empty()
    }

    open spec fn spec_command_post(
        &self,
        cmd: Seq<char>,
        s: Seq<Pig>,
        t: Seq<Pig>,
        r: Option<Response>,
        chat_id: i64,
        user_id: i64,
        username: Seq<char>,
        args: Seq<Seq<char>>,
        message_id: i64,
        now_ms: u64,
        c: GameConfig,
    ) -> bool {
        r is None && t == s
    }

    open spec fn spec_message_action(&self, text: Seq<char>, a: MessageAction) -> bool {
        &&& spec_nahruk_triggers(text)
        &&& (a matches MessageAction::Send(resp) && resp.text@ == spec_blocked_text()
            && resp.keyboard is None && resp.reply)
    }

    open spec fn spec_must_consume(&self, text: Seq<char>) -> bool {
        spec_nahruk_triggers(text)
    }

    fn name(&self) -> (r: &'static str) {
        "Powerful Nahruk"
    }

    fn commands(&self) -> (r: Vec<(&'static str, &'static str)>) {
        Vec::new()
    }

    fn handle_command(
        &self,
        chat_id: i64,
        user_id: i64,
        username: &str,
        command: &str,
        args: &Vec<String>,
        message_id: i64,
        now_ms: u64,
        db: &mut Database,
        config: &GameConfig,
    ) -> (r: Option<Response>) {
        None
    }

    fn handle_message(&self, text: &str, db: &Database, config: &GameConfig) -> (r: Option<
        MessageAction,
    >) {
        let note = self.check_nahruk(text);
        if note.as_str().unicode_len() > 0 {
            Some(MessageAction::Send(Response { text: note, keyboard: None, reply: true }))
        } else {
            None
        }
    }
}

impl BotModule for ReactionsModule {
    open spec fn spec_name(&self) -> Seq<char> {
        "Reactions Module"@
    }

    open spec fn spec_commands(&self) -> Seq<(Seq<char>, Seq<char>)> {
        Seq::empty()
    }

    open spec fn spec_command_post(
        &self,
        cmd: Seq<char>,
        s: Seq<Pig>,
        t: Seq<Pig>,
        r: Option<Response>,
        chat_id: i64,
        user_id: i64,
        username: Seq<char>,
        args: Seq<Seq<char>>,
        message_id: i64,
        now_ms: u64,
        c: GameConfig,
    ) -> bool {
        r is None && t == s
    }

    open spec fn spec_message_action(&self, text: Seq<char>, a: MessageAction) -> bool {
        a matches MessageAction::React(e) && spec_is_reaction(e@)
    }

    open spec fn spec_must_consume(&self, text: Seq<char>) -> bool {
        false
    }

    fn name(&self) -> (r: &'static str) {
        "Reactions Module"
    }

    fn commands(&self) -> (r: Vec<(&'static str, &'static str)>) {
        Vec::new()
    }

    fn handle_command(
        &self,
        chat_id: i64,
        user_id: i64,
        username: &str,
        command: &str,
        args: &Vec<String>,
        message_id: i64,
        now_ms: u64,
        db: &mut Database,
        config: &GameConfig,
    ) -> (r: Option<Response>) {
        None
    }

    fn handle_message(&self, text: &str, db: &Database, config: &GameConfig) -> (r: Option<
        MessageAction,
    >) {
        let reaction = self.react_to_message();
        if reaction.unicode_len() > 0 {
            Some(MessageAction::React(String::from_str(reaction)))
        } else {
            None
        }
    }
}

/// The closed set of modules a deployment can register.
#[derive(Clone, Copy, Debug, PartialEq, Eq, Structural)]
pub enum ModuleKind {
    /// The creature game.
    PigGame,
    /// The word filter.
    PowerfulNahruk,
    /// The reactions module.
    Reactions,
}

/// The command keywords and descriptions a module kind declares.
pub open spec fn spec_kind_commands(k: ModuleKind) -> Seq<(Seq<char>, Seq<char>)> {
    match k {
        ModuleKind::PigGame => spec_pig_game_command_pairs(),
        ModuleKind::PowerfulNahruk => Seq::empty(),
        ModuleKind::Reactions => Seq::empty(),
    }
}

/// The display name of a module kind.
pub open spec fn spec_kind_name(k: ModuleKind) -> Seq<char> {
    match k {
        ModuleKind::PigGame => "Pig Game"@,
        ModuleKind::PowerfulNahruk => "Powerful Nahruk"@,
        ModuleKind::Reactions => "Reactions Module"@,
    }
}

/// The module kind declares the command keyword.
pub open spec fn spec_kind_declares(k: ModuleKind, cmd: Seq<char>) -> bool {
    exists|i: int|
        0 <= i < spec_kind_commands(k).len() && (#[trigger] spec_kind_commands(k)[i]).0 == cmd
}

/// What a free-text action of a module kind means.
pub open spec fn spec_kind_message_action(k: ModuleKind, text: Seq<char>, a: MessageAction) -> bool {
    match k {
        ModuleKind::PigGame => false,
        ModuleKind::PowerfulNahruk => (PowerfulNahrukModule).spec_message_action(text, a),
        ModuleKind::Reactions => (ReactionsModule).spec_message_action(text, a),
    }
}

/// One help line per declared command: `/keyword - description`.
pub open spec fn spec_command_lines(pairs: Seq<(Seq<char>, Seq<char>)>) -> Seq<Seq<char>>
    decreases pairs.len(),
{
    if pairs.len() == 0 {
        Seq::empty()
    } else {
        spec_command_lines(pairs.drop_last()).push(
            "/"@ + pairs.last().0 + " - "@ + pairs.last().1,
        )
    }
}

/// The help block of one module: its name line, its command lines, and a
/// blank line.
pub open spec fn spec_kind_block(k: ModuleKind) -> Seq<Seq<char>> {
    seq![spec_kind_name(k).add(":"@)].add(spec_command_lines(spec_kind_commands(k))).add(
        seq![Seq::<char>::empty()],
    )
}

/// The help blocks of all registered modules, in registration order.
pub open spec fn spec_help_lines(mods: Seq<ModuleKind>) -> Seq<Seq<char>>
    decreases mods.len(),
{
    if mods.len() == 0 {
        Seq::empty()
    } else {
        spec_help_lines(mods.drop_last()).add(spec_kind_block(mods.last()))
    }
}

/// Some registered module declares at least one command.
pub open spec fn spec_any_commands(mods: Seq<ModuleKind>) -> bool {
    exists|j: int| 0 <= j < mods.len() && spec_kind_commands(#[trigger] mods[j]).len() > 0
}

/// The text of the router's own help answer: the joined help lines, or
/// the fixed report when no registered module declares any command.
pub open spec fn spec_help_text(mods: Seq<ModuleKind>) -> Seq<char> {
    "Available commands:\n"@ + if !spec_any_commands(mods) {
        "No commands available"@
    } else {
        spec_join_with(spec_help_lines(mods), "\n"@)
    }
}

/// Whether the module kind declares any command at all.
fn kind_declares_any(k: ModuleKind) -> (r: bool)
    ensures
        r == (spec_kind_commands(k).len() > 0),
{
    match k {
        ModuleKind::PigGame => {
            proof {
                assert(spec_kind_commands(k).len() == 6);
            }
            true
        },
        ModuleKind::PowerfulNahruk => {
            proof {
                assert(spec_kind_commands(k).len() == 0);
            }
            false
        },
        ModuleKind::Reactions => {
            proof {
                assert(spec_kind_commands(k).len() == 0);
            }
            false
        },
    }
}

/// What falling through to the free-text handlers guarantees: nothing
/// consumed means no registered word filter was triggered, and a consumed
/// message yields an action one registered module stands behind.
pub open spec fn spec_fallback_post(
    reg: Seq<ModuleKind>,
    text: Seq<char>,
    r: Option<MessageAction>,
) -> bool {
    &&& (r is None ==> forall|j: int|
        0 <= j < reg.len() && reg[j] == ModuleKind::PowerfulNahruk ==> !spec_nahruk_triggers(text))
    &&& (r matches Some(a) ==> exists|j: int|
        #![auto]
        0 <= j < reg.len() && spec_kind_message_action(reg[j], text, a) && (forall|j2: int|
            0 <= j2 < j && reg[j2] == ModuleKind::PowerfulNahruk ==> !spec_nahruk_triggers(text)))
}

/// The first registered module that declares the command keyword.
pub open spec fn spec_first_handler(mods: Seq<ModuleKind>, cmd: Seq<char>) -> Option<ModuleKind>
    decreases mods.len(),
{
    if mods.len() == 0 {
        None
    } else if spec_kind_declares(mods[0], cmd) {
        Some(mods[0])
    } else {
        spec_first_handler(mods.drop_first(), cmd)
    }
}

/// Whether the module kind declares the command keyword.
fn kind_declares(k: ModuleKind, command: &str) -> (r: bool)
    ensures
        r == spec_kind_declares(k, command@),
{
    match k {
        ModuleKind::PigGame => {
            let hit = str_eq(command, "pig") || str_eq(command, "grow") || str_eq(command, "my")
                || str_eq(command, "pigstats") || str_eq(command, "top") || str_eq(
                command,
                "name",
            );
            proof {
                let p = spec_kind_commands(k);
                assert(p.len() == 6);
                if hit {
                    if command@ == "pig"@ {
                        assert(p[0].0 == command@);
                    } else if command@ == "grow"@ {
                        assert(p[1].0 == command@);
                    } else if command@ == "my"@ {
                        assert(p[2].0 == command@);
                    } else if command@ == "pigstats"@ {
                        assert(p[3].0 == command@);
                    } else if command@ == "top"@ {
                        assert(p[4].0 == command@);
                    } else {
                        assert(p[5].0 == command@);
                    }
                } else {
                    assert forall|i: int| 0 <= i < p.len() implies (#[trigger] p[i]).0
                        != command@ by {
                        if i == 0 {
                        } else if i == 1 {
                        } else if i == 2 {
                        } else if i == 3 {
                        } else if i == 4 {
                        } else {
                        }
                    }
                }
            }
            hit
        },
        ModuleKind::PowerfulNahruk => {
            proof {
                assert(spec_kind_commands(k).len() == 0);
            }
            false
        },
        ModuleKind::Reactions => {
            proof {
                assert(spec_kind_commands(k).len() == 0);
            }
            false
        },
    }
}

/// Splits a `/`-prefixed chat text into its command keyword and argument
/// tokens; anything else — no slash, or a slash with no token after it —
/// is no command.
pub fn parse_command(text: &str) -> (r: Option<(String, Vec<String>)>)
    ensures
        match r {
            Some(cmd_args) => {
                &&& text@.len() >= 1 && text@[0] == '/'
                &&& spec_split_words(text@.skip(1)).len() >= 1
                &&& cmd_args.0@ == spec_split_words(text@.skip(1))[0]
                &&& views_of(cmd_args.1@) == spec_split_words(text@.skip(1)).drop_first()
            },
            None => text@.len() == 0 || text@[0] != '/' || spec_split_words(text@.skip(1)).len()
                == 0,
        },
{
    let n = text.unicode_len();
    if n == 0 {
        return None;
    }
    if text.get_char(0) != '/' {
        return None;
    }
    let rest = text.substring_char(1, n);
    proof {
        assert(rest@ =~= text@.skip(1));
    }
    let mut words = split_words(rest);
    if words.len() == 0 {
        proof {
            assert(views_of(words@).len() == words@.len());
        }
        return None;
    }
    let ghost all = words@;
    proof {
        assert(views_of(all).len() == all.len());
    }
    let cmd = words.remove(0);
    proof {
        assert(cmd == all[0]);
        assert(words@ =~= all.drop_first());
        assert(views_of(words@) =~= views_of(all).drop_first());
        assert(cmd@ == views_of(all)[0]);
    }
    Some((cmd, words))
}

/// The registry of behaviour modules, dispatching inbound commands and
/// free-text messages to the first module that claims them, in
/// registration order.
pub struct ModuleManager {
    modules: Vec<ModuleKind>,
}

impl ModuleManager {
    /// The registered modules, in registration order — the dispatch
    /// tiebreak when two modules would declare the same keyword.
    pub closed spec fn registry(&self) -> Seq<ModuleKind> {
        self.modules@
    }

    /// An empty registry.
    pub fn new() -> (m: ModuleManager)
        ensures
            m.registry() == Seq::<ModuleKind>::empty(),
    {
        ModuleManager { modules: Vec::new() }
    }

    /// Registers a module.  The registry holds each kind at most once:
    /// registering a kind again replaces the earlier entry, which for the
    /// stateless module kinds means the registry is unchanged.
    pub fn register_module(&mut self, module: ModuleKind)
        ensures
            final(self).registry() == (if old(self).registry().contains(module) {
                old(self).registry()
            } else {
                old(self).registry().push(module)
            }),
    {
        let n = self.modules.len();
        let mut i: usize = 0;
        while i < n
            invariant
                n == self.registry().len(),
                i <= n,
                self == old(self),
                forall|j: int| 0 <= j < i ==> self.registry()[j] != module,
            decreases n - i,
        {
            if self.modules[i] == module {
                proof {
                    assert(self.registry().contains(module));
                }
                return ;
            }
            i = i + 1;
        }
        proof {
            assert(!old(self).registry().contains(module));
        }
        self.modules.push(module);
    }

    /// Dispatches a command: the first registered module that declares the
    /// keyword handles it exclusively; the first component reports whether
    /// any module matched.
    pub fn handle_command(
        &self,
        chat_id: i64,
        user_id: i64,
        username: &str,
        command: &str,
        args: &Vec<String>,
        message_id: i64,
        now_ms: u64,
        db: &mut Database,
        config: &GameConfig,
    ) -> (r: (bool, Option<Response>))
        requires
            old(db).wf(),
            config.wf(),
        ensures
            final(db).wf(),
            final(db).loot_rows() == old(db).loot_rows(),
            r.0 == (spec_first_handler(self.registry(), command@) is Some),
            spec_first_handler(self.registry(), command@) is None ==> final(db).pig_rows() == old(
                db,
            ).pig_rows() && r.1 is None,
            spec_first_handler(self.registry(), command@) == Some(ModuleKind::PigGame) ==> (
            r.1 matches Some(resp) && spec_pig_command_post(
                command@,
                old(db).pig_rows(),
                final(db).pig_rows(),
                resp,
                chat_id,
                user_id,
                username@,
                views_of(args@),
                message_id,
                now_ms,
                *config,
            )),
            (spec_first_handler(self.registry(), command@) matches Some(k) && k
                != ModuleKind::PigGame) ==> final(db).pig_rows() == old(db).pig_rows()
                && r.1 is None,
    {
        let n = self.modules.len();
        let mut i: usize = 0;
        proof {
            assert(self.registry().skip(0) =~= self.registry());
        }
        while i < n
            invariant
                n == self.registry().len(),
                i <= n,
                db.wf(),
                *db == *old(db),
                config.wf(),
                spec_first_handler(self.registry(), command@) == spec_first_handler(
                    self.registry().skip(i as int),
                    command@,
                ),
            decreases n - i,
        {
            let k = self.modules[i];
            proof {
                assert(self.registry().skip(i as int)[0] == self.registry()[i as int]);
                assert(self.registry().skip(i as int).drop_first() =~= self.registry().skip(
                    i as int + 1,
                ));
            }
            if kind_declares(k, command) {
                match k {
                    ModuleKind::PigGame => {
                        let m = PigGameModule;
                        let resp = m.handle_command(
                            chat_id,
                            user_id,
                            username,
                            command,
                            args,
                            message_id,
                            now_ms,
                            db,
                            config,
                        );
                        return (true, resp);
                    },
                    ModuleKind::PowerfulNahruk => {
                        let m = PowerfulNahrukModule;
                        let resp = m.handle_command(
                            chat_id,
                            user_id,
                            username,
                            command,
                            args,
                            message_id,
                            now_ms,
                            db,
                            config,
                        );
                        return (true, resp);
                    },
                    ModuleKind::Reactions => {
                        let m = ReactionsModule;
                        let resp = m.handle_command(
                            chat_id,
                            user_id,
                            username,
                            command,
                            args,
                            message_id,
                            now_ms,
                            db,
                            config,
                        );
                        return (true, resp);
                    },
                }
            }
            i = i + 1;
        }
        proof {
            assert(self.registry().skip(n as int) =~= Seq::<ModuleKind>::empty());
        }
        (false, None)
    }

    /// Whether any registered module declares a command.
    fn any_declared_commands(&self) -> (r: bool)
        ensures
            r == spec_any_commands(self.registry()),
    {
        let n = self.modules.len();
        let mut i: usize = 0;
        while i < n
            invariant
                n == self.registry().len(),
                i <= n,
                forall|j: int|
                    0 <= j < i ==> spec_kind_commands(#[trigger] self.registry()[j]).len() == 0,
            decreases n - i,
        {
            if kind_declares_any(self.modules[i]) {
                return true;
            }
            i = i + 1;
        }
        false
    }

    /// Every module's declared commands, grouped by module: for each
    /// registered module a `Name:` line, one `/keyword - description` line
    /// per declared command, and a blank line.
    pub fn get_all_commands(&self) -> (r: Vec<String>)
        ensures
            views_of(r@) == spec_help_lines(self.registry()),
    {
        let mut out: Vec<String> = Vec::new();
        let n = self.modules.len();
        let mut i: usize = 0;
        proof {
            assert(views_of(out@) =~= Seq::<Seq<char>>::empty());
            assert(self.registry().take(0) =~= Seq::<ModuleKind>::empty());
        }
        while i < n
            invariant
                n == self.registry().len(),
                i <= n,
                views_of(out@) == spec_help_lines(self.registry().take(i as int)),
            decreases n - i,
        {
            let k = self.modules[i];
            let ghost base = views_of(out@);
            let header_str: &'static str = match k {
                ModuleKind::PigGame => "Pig Game",
                ModuleKind::PowerfulNahruk => "Powerful Nahruk",
                ModuleKind::Reactions => "Reactions Module",
            };
            let mut header = String::from_str(header_str);
            header.append(":");
            out.push(header);
            proof {
                assert(views_of(out@) =~= base.push(spec_kind_name(k).add(":"@)));
            }
            let pairs: Vec<(&'static str, &'static str)> = match k {
                ModuleKind::PigGame => {
                    let m = PigGameModule;
                    m.commands()
                },
                ModuleKind::PowerfulNahruk => {
                    let m = PowerfulNahrukModule;
                    m.commands()
                },
                ModuleKind::Reactions => {
                    let m = ReactionsModule;
                    m.commands()
                },
            };
            let ghost sp = spec_kind_commands(k);
            proof {
                assert(pairs@.len() == sp.len());
                assert(forall|a: int|
                    0 <= a < pairs@.len() ==> (#[trigger] pairs@[a]).0@ == sp[a].0 && pairs@[a].1@
                        == sp[a].1);
                assert(sp.take(0) =~= Seq::<(Seq<char>, Seq<char>)>::empty());
            }
            let pn = pairs.len();
            let mut j: usize = 0;
            while j < pn
                invariant
                    j <= pn,
                    pn == pairs@.len(),
                    pairs@.len() == sp.len(),
                    forall|a: int|
                        0 <= a < pairs@.len() ==> (#[trigger] pairs@[a]).0@ == sp[a].0
                            && pairs@[a].1@ == sp[a].1,
                    views_of(out@) == base.push(spec_kind_name(k).add(":"@)).add(
                        spec_command_lines(sp.take(j as int)),
                    ),
                decreases pn - j,
            {
                let mut line = String::from_str("/");
                line.append(pairs[j].0);
                line.append(" - ");
                line.append(pairs[j].1);
                let ghost prev_lines = views_of(out@);
                out.push(line);
                proof {
                    assert(views_of(out@) =~= prev_lines.push(out@.last()@));
                    assert(sp.take(j + 1).drop_last() =~= sp.take(j as int));
                    assert(sp.take(j + 1).last() == sp[j as int]);
                    assert(line@ == "/"@ + sp[j as int].0 + " - "@ + sp[j as int].1);
                    assert(views_of(out@) =~= base.push(spec_kind_name(k).add(":"@)).add(
                        spec_command_lines(sp.take(j + 1)),
                    ));
                }
                j = j + 1;
            }
            let ghost prev_lines = views_of(out@);
            out.push(String::new());
            proof {
                assert(views_of(out@) =~= prev_lines.push(out@.last()@));
                assert(sp.take(pn as int) =~= sp);
                assert(views_of(out@) =~= base.add(spec_kind_block(k)));
                assert(self.registry().take(i + 1).drop_last() =~= self.registry().take(i as int));
                assert(self.registry().take(i + 1).last() == self.registry()[i as int]);
                assert(views_of(out@) =~= spec_help_lines(self.registry().take(i + 1)));
            }
            i = i + 1;
        }
        proof {
            assert(self.registry().take(n as int) =~= self.registry());
        }
        out
    }

    /// Routes one free-text chat message: a `/`-prefixed text is parsed
    /// into a command, the reserved `help` keyword is answered by the
    /// router itself, any other declared command goes to its module, and
    /// everything else is offered to the modules' message handlers.
    pub fn handle_text_message(
        &self,
        text: &str,
        chat_id: i64,
        user_id: i64,
        username: &str,
        message_id: i64,
        now_ms: u64,
        db: &mut Database,
        config: &GameConfig,
    ) -> (r: Option<MessageAction>)
        requires
            old(db).wf(),
            config.wf(),
        ensures
            final(db).wf(),
            final(db).loot_rows() == old(db).loot_rows(),
            ({
                let words = spec_split_words(text@.skip(1));
                let has_cmd = text@.len() >= 1 && text@[0] == '/' && words.len() >= 1;
                if has_cmd && words[0] == "help"@ {
                    final(db).pig_rows() == old(db).pig_rows() && (r matches Some(
                        MessageAction::Send(resp),
                    ) && resp.text@ == spec_help_text(self.registry()) && resp.keyboard is None
                        && !resp.reply)
                } else if has_cmd && spec_first_handler(self.registry(), words[0]) is Some {
                    if spec_first_handler(self.registry(), words[0]) == Some(ModuleKind::PigGame) {
                        r matches Some(MessageAction::Send(resp)) && spec_pig_command_post(
                            words[0],
                            old(db).pig_rows(),
                            final(db).pig_rows(),
                            resp,
                            chat_id,
                            user_id,
                            username@,
                            words.drop_first(),
                            message_id,
                            now_ms,
                            *config,
                        )
                    } else {
                        final(db).pig_rows() == old(db).pig_rows() && r is None
                    }
                } else {
                    final(db).pig_rows() == old(db).pig_rows() && spec_fallback_post(
                        self.registry(),
                        text@,
                        r,
                    )
                }
            }),
    {
        match parse_command(text) {
            Some((cmd, args)) => {
                if str_eq(cmd.as_str(), "help") {
                    let body: String = if !self.any_declared_commands() {
                        String::from_str("No commands available")
                    } else {
                        let lines = self.get_all_commands();
                        join_with(&lines, "\n")
                    };
                    let mut msg = String::from_str("Available commands:\n");
                    msg.append(body.as_str());
                    proof {
                        assert(msg@ =~= spec_help_text(self.registry()));
                    }
                    Some(MessageAction::Send(Response { text: msg, keyboard: None, reply: false }))
                } else {
                    let dispatched = self.handle_command(
                        chat_id,
                        user_id,
                        username,
                        cmd.as_str(),
                        &args,
                        message_id,
                        now_ms,
                        db,
                        config,
                    );
                    if dispatched.0 {
                        match dispatched.1 {
                            Some(re) => Some(MessageAction::Send(re)),
                            None => None,
                        }
                    } else {
                        self.handle_message(text, db, config)
                    }
                }
            },
            None => self.handle_message(text, db, config),
        }
    }

    /// Offers a free-text message to every registered module in order; the
    /// first module that consumes it acts, and the rest are skipped.
    pub fn handle_message(&self, text: &str, db: &Database, config: &GameConfig) -> (r: Option<
        MessageAction,
    >)
        requires
            db.wf(),
            config.wf(),
        ensures
            r is None ==> forall|j: int|
                0 <= j < self.registry().len() && self.registry()[j] == ModuleKind::PowerfulNahruk
                    ==> !spec_nahruk_triggers(text@),
            r matches Some(a) ==> exists|j: int|
                #![auto]
                0 <= j < self.registry().len() && spec_kind_message_action(
                    self.registry()[j],
                    text@,
                    a,
                ) && (forall|j2: int|
                    0 <= j2 < j && self.registry()[j2] == ModuleKind::PowerfulNahruk
                        ==> !spec_nahruk_triggers(text@)),
    {
        let n = self.modules.len();
        let mut i: usize = 0;
        while i < n
            invariant
                n == self.registry().len(),
                i <= n,
                db.wf(),
                config.wf(),
                forall|j: int|
                    0 <= j < i && self.registry()[j] == ModuleKind::PowerfulNahruk
                        ==> !spec_nahruk_triggers(text@),
            decreases n - i,
        {
            let k = self.modules[i];
            let act: Option<MessageAction> = match k {
                ModuleKind::PigGame => {
                    let m = PigGameModule;
                    m.handle_message(text, db, config)
                },
                ModuleKind::PowerfulNahruk => {
                    let m = PowerfulNahrukModule;
                    m.handle_message(text, db, config)
                },
                ModuleKind::Reactions => {
                    let m = ReactionsModule;
                    m.handle_message(text, db, config)
                },
            };
            match act {
                Some(a) => {
                    proof {
                        assert(spec_kind_message_action(self.registry()[i as int], text@, a));
                    }
                    return Some(a);
                },
                None => {},
            }
            i = i + 1;
        }
        None
    }
}

} // verus!
