//! The packet dispatcher.
//!
//! Decoded packets are routed by their type tag into the aggregate store
//! and the message log. File work is not done here: the dispatcher returns
//! a `CsvAction` order that the caller carries out against the per-battle
//! CSV file, so every decision — which rows exist, when the session opens
//! and closes — is verified while the I/O stays outside the library.
//!
//! A payload that does not match the shape its type calls for is dropped
//! silently: the store is left exactly as it was, and the pipeline goes on.
//! The message-log lines each packet leaves are part of the contracts, stated
//! with `logged_line` and `logged_lines_then`.

use crate::decimal::milli_text;
use crate::decimal::milli_to_text;
use crate::json::parse_damage;
use crate::json::parse_error;
use crate::json::parse_kill;
use crate::json::parse_setup;
use crate::json::parse_skill;
use crate::json::parse_turn;
use crate::json::parse_turn_begin;
use crate::logger::logs_after_append;
use crate::logger::logs_after_lines;
use crate::logger::stamped;
use crate::logger::MessageLogger;
use crate::models::Packet;
use crate::store::battle_end_model;
use crate::store::damage_model;
use crate::store::damage_row;
use crate::store::lineup_model;
use crate::store::turn_end_model;
use crate::store::wf;
use crate::store::DataBufferInner;
use crate::store::StoreModel;
use vstd::prelude::*;
use vstd::string::StringExecFns;

verus! {

broadcast use vstd::string::group_string_axioms;

/// An order to the CSV session kept outside the library.
pub enum CsvAction {
    /// Open a fresh per-battle file with this header row.
    Create { header: Vec<String> },
    /// Append one damage row — one figure per roster column — and flush.
    Append { row: Vec<u64> },
    /// Close the open file; nothing more will be written to it.
    Close,
}

/// The packet types the dispatcher acts on; anything else is logged as
/// unknown and changes nothing.
pub open spec fn recognized_kind(kind: Seq<char>) -> bool {
    ||| kind == "SetBattleLineup"@
    ||| kind == "BattleBegin"@
    ||| kind == "TurnBegin"@
    ||| kind == "OnDamage"@
    ||| kind == "TurnEnd"@
    ||| kind == "OnKill"@
    ||| kind == "OnBattleEnd"@
    ||| kind == "OnUseSkill"@
    ||| kind == "Error"@
}

/// The nine packet type tags are pairwise distinct text.
spec fn tags_distinct() -> bool {
    &&& "SetBattleLineup"@ != "BattleBegin"@
    &&& "SetBattleLineup"@ != "TurnBegin"@
    &&& "SetBattleLineup"@ != "OnDamage"@
    &&& "SetBattleLineup"@ != "TurnEnd"@
    &&& "SetBattleLineup"@ != "OnKill"@
    &&& "SetBattleLineup"@ != "OnBattleEnd"@
    &&& "SetBattleLineup"@ != "OnUseSkill"@
    &&& "SetBattleLineup"@ != "Error"@
    &&& "BattleBegin"@ != "TurnBegin"@
    &&& "BattleBegin"@ != "OnDamage"@
    &&& "BattleBegin"@ != "TurnEnd"@
    &&& "BattleBegin"@ != "OnKill"@
    &&& "BattleBegin"@ != "OnBattleEnd"@
    &&& "BattleBegin"@ != "OnUseSkill"@
    &&& "BattleBegin"@ != "Error"@
    &&& "TurnBegin"@ != "OnDamage"@
    &&& "TurnBegin"@ != "TurnEnd"@
    &&& "TurnBegin"@ != "OnKill"@
    &&& "TurnBegin"@ != "OnBattleEnd"@
    &&& "TurnBegin"@ != "OnUseSkill"@
    &&& "TurnBegin"@ != "Error"@
    &&& "OnDamage"@ != "TurnEnd"@
    &&& "OnDamage"@ != "OnKill"@
    &&& "OnDamage"@ != "OnBattleEnd"@
    &&& "OnDamage"@ != "OnUseSkill"@
    &&& "OnDamage"@ != "Error"@
    &&& "TurnEnd"@ != "OnKill"@
    &&& "TurnEnd"@ != "OnBattleEnd"@
    &&& "TurnEnd"@ != "OnUseSkill"@
    &&& "TurnEnd"@ != "Error"@
    &&& "OnKill"@ != "OnBattleEnd"@
    &&& "OnKill"@ != "OnUseSkill"@
    &&& "OnKill"@ != "Error"@
    &&& "OnBattleEnd"@ != "OnUseSkill"@
    &&& "OnBattleEnd"@ != "Error"@
    &&& "OnUseSkill"@ != "Error"@
}

proof fn lemma_tags_distinct()
    ensures
        tags_distinct(),
{
    reveal_strlit("SetBattleLineup");
    reveal_strlit("BattleBegin");
    reveal_strlit("TurnBegin");
    reveal_strlit("OnDamage");
    reveal_strlit("TurnEnd");
    reveal_strlit("OnKill");
    reveal_strlit("OnBattleEnd");
    reveal_strlit("OnUseSkill");
    reveal_strlit("Error");
    assert("SetBattleLineup"@.len() == 15);
    assert("BattleBegin"@.len() == 11);
    assert("TurnBegin"@.len() == 9);
    assert("OnDamage"@.len() == 8);
    assert("TurnEnd"@.len() == 7);
    assert("OnKill"@.len() == 6);
    assert("OnBattleEnd"@.len() == 11);
    assert("OnUseSkill"@.len() == 10);
    assert("Error"@.len() == 5);
    assert("BattleBegin"@[0] == 'B');
    assert("OnBattleEnd"@[0] == 'O');
}

/// Exactly one timestamped line with this body was appended to the log.
pub open spec fn logged_line(pre: Seq<Seq<char>>, post: Seq<Seq<char>>, body: Seq<char>) -> bool {
    exists|ts: Seq<char>| post == logs_after_append(pre, stamped(ts, body))
}

/// A run of timestamped lines was appended, the last one carrying this body.
pub open spec fn logged_lines_then(
    pre: Seq<Seq<char>>,
    post: Seq<Seq<char>>,
    body: Seq<char>,
) -> bool {
    exists|lines: Seq<Seq<char>>, ts: Seq<char>|
        post == logs_after_append(logs_after_lines(pre, lines), stamped(ts, body))
}

/// Routes decoded packets into the aggregate store and the log, and orders
/// the CSV session around. `csv_open` holds between a lineup and the next
/// battle end: only then are rows handed out.
pub struct PacketHandler {
    pub csv_open: bool,
}

impl PacketHandler {
    /// A dispatcher with no CSV session.
    pub fn new() -> (r: Self)
        ensures
            !r.csv_open,
    {
        PacketHandler { csv_open: false }
    }

    /// True when the packet's type tag is `tag`.
    fn kind_is(p: &Packet, tag: &str) -> (r: bool)
        ensures
            r == (p.kind@ == tag@),
    {
        let t: String = tag.to_owned();
        p.kind == t
    }

    /// Lineup: resets the store to the new roster and opens a CSV session
    /// with the roster as header. A malformed payload changes nothing.
    fn handle_lineup(
        &mut self,
        data: &serde_json::Value,
        buffer: &mut DataBufferInner,
    ) -> (r: Option<CsvAction>)
        requires
            wf(old(buffer)@),
        ensures
            wf(final(buffer)@),
            r matches Some(a) ==> (a matches CsvAction::Create { header } && final(buffer)@
                == lineup_model(old(buffer)@, header@.map_values(|s: String| s@))
                && final(self).csv_open),
            r is None ==> final(buffer)@ == old(buffer)@ && *final(self) == *old(self),
    {
        match parse_setup(data) {
            Some(setup) => {
                let mut names: Vec<String> = Vec::new();
                let mut i: usize = 0;
                while i < setup.avatars.len()
                    decreases setup.avatars@.len() - i,
                {
                    names.push(setup.avatars[i].name.clone());
                    i = i + 1;
                }
                buffer.init_characters(names.as_slice());
                self.csv_open = true;
                Some(CsvAction::Create { header: names })
            },
            None => None,
        }
    }

    /// Damage: logs the hit, accrues it into the store, and — for a roster
    /// attacker while a CSV session is open — hands out the recorded row.
    /// A malformed payload changes nothing.
    fn handle_damage(
        &self,
        data: &serde_json::Value,
        logger: &mut MessageLogger,
        buffer: &mut DataBufferInner,
    ) -> (r: Option<CsvAction>)
        requires
            old(logger).wf(),
            wf(old(buffer)@),
        ensures
            final(logger).wf(),
            wf(final(buffer)@),
            (exists|name: Seq<char>, amt: u64|
                {
                    &&& final(buffer)@ == damage_model(old(buffer)@, name, amt)
                    &&& amt > 0 ==> logged_line(
                        old(logger)@,
                        final(logger)@,
                        name + " dealt "@ + milli_text(amt) + " damage"@,
                    )
                    &&& amt == 0 ==> final(logger)@ == old(logger)@
                }) || (final(buffer)@ == old(buffer)@ && final(logger)@ == old(logger)@),
            r matches Some(a) ==> (a matches CsvAction::Append { row } && self.csv_open && (exists|
                name: Seq<char>,
                amt: u64,
            |
                {
                    &&& final(buffer)@ == damage_model(old(buffer)@, name, amt)
                    &&& old(buffer)@.column_names.index_of_first(name) is Some
                    &&& row@ == damage_row(old(buffer)@.column_names, name, amt)
                })),
    {
        match parse_damage(data) {
            Some(dd) => {
                if dd.damage > 0 {
                    let mut msg = String::new();
                    msg.append(dd.attacker.name.as_str());
                    msg.append(" dealt ");
                    let text = milli_to_text(dd.damage);
                    msg.append(text.as_str());
                    msg.append(" damage");
                    proof {
                        assert(msg@ =~= dd.attacker.name@ + " dealt "@ + milli_text(dd.damage)
                            + " damage"@);
                    }
                    logger.log(msg.as_str());
                    proof {
                        let ts = choose|ts: Seq<char>|
                            logger@ == logs_after_append(old(logger)@, stamped(ts, msg@));
                        assert(logger@ == logs_after_append(
                            old(logger)@,
                            stamped(
                                ts,
                                dd.attacker.name@ + " dealt "@ + milli_text(dd.damage)
                                    + " damage"@,
                            ),
                        ));
                        assert(logged_line(
                            old(logger)@,
                            logger@,
                            dd.attacker.name@ + " dealt "@ + milli_text(dd.damage) + " damage"@,
                        ));
                    }
                }
                let row_opt = buffer.accrue_damage(&dd.attacker.name, dd.damage);
                proof {
                    assert(buffer@ == damage_model(old(buffer)@, dd.attacker.name@, dd.damage));
                }
                match row_opt {
                    Some(row) => {
                        if self.csv_open {
                            Some(CsvAction::Append { row })
                        } else {
                            None
                        }
                    },
                    None => None,
                }
            },
            None => None,
        }
    }

    /// Turn begin: moves the action-value cursor. A malformed payload
    /// changes nothing.
    fn handle_turn_begin(
        &self,
        data: &serde_json::Value,
        logger: &mut MessageLogger,
        buffer: &mut DataBufferInner,
    )
        requires
            old(logger).wf(),
            wf(old(buffer)@),
        ensures
            final(logger).wf(),
            wf(final(buffer)@),
            (exists|av: u64|
                {
                    &&& final(buffer)@ == (StoreModel { current_av: av, ..old(buffer)@ })
                    &&& logged_line(
                        old(logger)@,
                        final(logger)@,
                        "Turn begin - AV: "@ + milli_text(av),
                    )
                }) || (final(buffer)@ == old(buffer)@ && final(logger)@ == old(logger)@),
    {
        match parse_turn_begin(data) {
            Some(tb) => {
                buffer.current_av = tb.action_value;
                let mut msg = String::new();
                msg.append("Turn begin - AV: ");
                let text = milli_to_text(tb.action_value);
                msg.append(text.as_str());
                proof {
                    assert(msg@ =~= "Turn begin - AV: "@ + milli_text(tb.action_value));
                }
                logger.log(msg.as_str());
                proof {
                    let ts = choose|ts: Seq<char>|
                        logger@ == logs_after_append(old(logger)@, stamped(ts, msg@));
                    assert(logger@ == logs_after_append(
                        old(logger)@,
                        stamped(ts, "Turn begin - AV: "@ + milli_text(tb.action_value)),
                    ));
                    assert(logged_line(
                        old(logger)@,
                        logger@,
                        "Turn begin - AV: "@ + milli_text(tb.action_value),
                    ));
                    assert(buffer@ =~~= (StoreModel {
                        current_av: tb.action_value,
                        ..old(buffer)@
                    }));
                }
            },
            None => {},
        }
    }

    /// Turn end: logs each contributor's share, then closes the turn in the
    /// store. A malformed payload changes nothing.
    fn handle_turn_end(
        &self,
        data: &serde_json::Value,
        logger: &mut MessageLogger,
        buffer: &mut DataBufferInner,
    )
        requires
            old(logger).wf(),
            wf(old(buffer)@),
        ensures
            final(logger).wf(),
            wf(final(buffer)@),
            (final(buffer)@ == turn_end_model(old(buffer)@) && (exists|total: u64|
                logged_lines_then(
                    old(logger)@,
                    final(logger)@,
                    "Total turn damage: "@ + milli_text(total),
                ))) || (final(buffer)@ == old(buffer)@ && final(logger)@ == old(logger)@),
    {
        match parse_turn(data) {
            Some(td) => {
                let limit: usize = if td.avatars.len() < td.avatars_damage.len() {
                    td.avatars.len()
                } else {
                    td.avatars_damage.len()
                };
                let ghost mut lines: Seq<Seq<char>> = Seq::empty();
                let mut i: usize = 0;
                while i < limit
                    invariant
                        logger.wf(),
                        wf(buffer@),
                        buffer@ == old(buffer)@,
                        limit <= td.avatars@.len(),
                        limit <= td.avatars_damage@.len(),
                        0 <= i <= limit,
                        logger@ == logs_after_lines(old(logger)@, lines),
                    decreases limit - i,
                {
                    let dmg: u64 = td.avatars_damage[i];
                    if dmg > 0 {
                        let mut msg = String::new();
                        msg.append("Turn summary - ");
                        msg.append(td.avatars[i].name.as_str());
                        msg.append(": ");
                        let text = milli_to_text(dmg);
                        msg.append(text.as_str());
                        msg.append(" damage");
                        let ghost pre = logger@;
                        logger.log(msg.as_str());
                        proof {
                            let ts = choose|ts: Seq<char>|
                                logger@ == logs_after_append(pre, stamped(ts, msg@));
                            let grown = lines.push(stamped(ts, msg@));
                            assert(grown.drop_last() =~= lines);
                            lines = grown;
                            assert(logger@ == logs_after_lines(old(logger)@, lines));
                        }
                    }
                    i = i + 1;
                }
                let mut msg = String::new();
                msg.append("Total turn damage: ");
                let text = milli_to_text(td.total_damage);
                msg.append(text.as_str());
                proof {
                    assert(msg@ =~= "Total turn damage: "@ + milli_text(td.total_damage));
                }
                let ghost mid = logger@;
                logger.log(msg.as_str());
                proof {
                    let ts = choose|ts: Seq<char>|
                        logger@ == logs_after_append(mid, stamped(ts, msg@));
                    assert(logger@ == logs_after_append(
                        logs_after_lines(old(logger)@, lines),
                        stamped(ts, "Total turn damage: "@ + milli_text(td.total_damage)),
                    ));
                    assert(logged_lines_then(
                        old(logger)@,
                        logger@,
                        "Total turn damage: "@ + milli_text(td.total_damage),
                    ));
                }
                buffer.close_turn();
            },
            None => {},
        }
    }

    /// Battle end: flushes and clears a still-open turn bucket (logging
    /// each final contribution first), closes the CSV session, and orders
    /// the file closed.
    fn handle_battle_end(
        &mut self,
        logger: &mut MessageLogger,
        buffer: &mut DataBufferInner,
    ) -> (r: Option<CsvAction>)
        requires
            old(logger).wf(),
            wf(old(buffer)@),
        ensures
            final(logger).wf(),
            wf(final(buffer)@),
            final(buffer)@ == battle_end_model(old(buffer)@),
            !final(self).csv_open,
            r matches Some(a) ==> a matches CsvAction::Close,
            r is Some,
            logged_lines_then(old(logger)@, final(logger)@, "Battle ended - CSV file closed"@),
    {
        let ghost mut lines: Seq<Seq<char>> = Seq::empty();
        if buffer.turn_open {
            self.log_final_turn(logger, buffer);
            proof {
                lines = choose|l: Seq<Seq<char>>| logger@ == logs_after_lines(old(logger)@, l);
            }
        }
        buffer.flush_final_turn();
        self.csv_open = false;
        let ghost mid = logger@;
        proof {
            assert(mid == logs_after_lines(old(logger)@, lines));
        }
        logger.log("Battle ended - CSV file closed");
        proof {
            let ts = choose|ts: Seq<char>|
                logger@ == logs_after_append(mid, stamped(ts, "Battle ended - CSV file closed"@));
            assert(logger@ == logs_after_append(
                logs_after_lines(old(logger)@, lines),
                stamped(ts, "Battle ended - CSV file closed"@),
            ));
            assert(logged_lines_then(old(logger)@, logger@, "Battle ended - CSV file closed"@));
        }
        Some(CsvAction::Close)
    }

    /// Writes the final-turn summary lines for a still-open bucket: a run
    /// of timestamped lines, nothing else.
    fn log_final_turn(&self, logger: &mut MessageLogger, buffer: &DataBufferInner)
        requires
            old(logger).wf(),
            wf(buffer@),
        ensures
            final(logger).wf(),
            exists|lines: Seq<Seq<char>>|
                final(logger)@ == logs_after_lines(old(logger)@, lines),
    {
        let ghost mut lines: Seq<Seq<char>> = Seq::empty();
        let width: usize = buffer.column_names.len();
        let mut total: u64 = 0;
        let mut i: usize = 0;
        while i < width
            invariant
                logger.wf(),
                wf(buffer@),
                width == buffer.column_names@.len(),
                0 <= i <= width,
                logger@ == logs_after_lines(old(logger)@, lines),
            decreases width - i,
        {
            let dmg: u64 = buffer.current_turn[i];
            total = total.saturating_add(dmg);
            if dmg > 0 {
                let mut msg = String::new();
                msg.append("Final turn summary - ");
                msg.append(buffer.column_names[i].as_str());
                msg.append(": ");
                let text = milli_to_text(dmg);
                msg.append(text.as_str());
                msg.append(" damage");
                let ghost pre = logger@;
                logger.log(msg.as_str());
                proof {
                    let ts = choose|ts: Seq<char>|
                        logger@ == logs_after_append(pre, stamped(ts, msg@));
                    let grown = lines.push(stamped(ts, msg@));
                    assert(grown.drop_last() =~= lines);
                    lines = grown;
                    assert(logger@ == logs_after_lines(old(logger)@, lines));
                }
            }
            i = i + 1;
        }
        let mut msg = String::new();
        msg.append("Final turn total damage: ");
        let text = milli_to_text(total);
        msg.append(text.as_str());
        let ghost pre = logger@;
        logger.log(msg.as_str());
        proof {
            let ts = choose|ts: Seq<char>| logger@ == logs_after_append(pre, stamped(ts, msg@));
            let grown = lines.push(stamped(ts, msg@));
            assert(grown.drop_last() =~= lines);
            lines = grown;
            assert(logger@ == logs_after_lines(old(logger)@, lines));
        }
    }

    /// Kill: log-only — one line naming the attacker, or nothing for a
    /// malformed payload.
    fn handle_kill(&self, data: &serde_json::Value, logger: &mut MessageLogger)
        requires
            old(logger).wf(),
        ensures
            final(logger).wf(),
            final(logger)@ == old(logger)@ || (exists|name: Seq<char>|
                logged_line(old(logger)@, final(logger)@, name + " has killed"@)),
    {
        match parse_kill(data) {
            Some(kd) => {
                let mut msg = String::new();
                msg.append(kd.attacker.name.as_str());
                msg.append(" has killed");
                proof {
                    assert(msg@ =~= kd.attacker.name@ + " has killed"@);
                }
                logger.log(msg.as_str());
                proof {
                    let ts = choose|ts: Seq<char>|
                        logger@ == logs_after_append(old(logger)@, stamped(ts, msg@));
                    assert(logger@ == logs_after_append(
                        old(logger)@,
                        stamped(ts, kd.attacker.name@ + " has killed"@),
                    ));
                    assert(logged_line(old(logger)@, logger@, kd.attacker.name@ + " has killed"@));
                }
            },
            None => {},
        }
    }

    /// Skill use: log-only — one line naming the avatar and the skill, or
    /// nothing for a malformed payload.
    fn handle_on_skill_use(&self, data: &serde_json::Value, logger: &mut MessageLogger)
        requires
            old(logger).wf(),
        ensures
            final(logger).wf(),
            final(logger)@ == old(logger)@ || (exists|
                who: Seq<char>,
                kind: Seq<char>,
                name: Seq<char>,
            |
                logged_line(
                    old(logger)@,
                    final(logger)@,
                    who + " used ["@ + kind + "] "@ + name,
                )),
    {
        match parse_skill(data) {
            Some(sd) => {
                let mut msg = String::new();
                msg.append(sd.avatar.name.as_str());
                msg.append(" used [");
                msg.append(sd.skill.kind.as_str());
                msg.append("] ");
                msg.append(sd.skill.name.as_str());
                proof {
                    assert(msg@ =~= sd.avatar.name@ + " used ["@ + sd.skill.kind@ + "] "@
                        + sd.skill.name@);
                }
                logger.log(msg.as_str());
                proof {
                    let ts = choose|ts: Seq<char>|
                        logger@ == logs_after_append(old(logger)@, stamped(ts, msg@));
                    assert(logger@ == logs_after_append(
                        old(logger)@,
                        stamped(
                            ts,
                            sd.avatar.name@ + " used ["@ + sd.skill.kind@ + "] "@ + sd.skill.name@,
                        ),
                    ));
                    assert(logged_line(
                        old(logger)@,
                        logger@,
                        sd.avatar.name@ + " used ["@ + sd.skill.kind@ + "] "@ + sd.skill.name@,
                    ));
                }
            },
            None => {},
        }
    }

    /// Error report from the agent: log-only — the reported message as one
    /// line, or nothing for a malformed payload.
    fn handle_error(&self, data: &serde_json::Value, logger: &mut MessageLogger)
        requires
            old(logger).wf(),
        ensures
            final(logger).wf(),
            final(logger)@ == old(logger)@ || (exists|body: Seq<char>|
                logged_line(old(logger)@, final(logger)@, body)),
    {
        match parse_error(data) {
            Some(ed) => {
                logger.log(ed.msg.as_str());
                proof {
                    let ts = choose|ts: Seq<char>|
                        logger@ == logs_after_append(old(logger)@, stamped(ts, ed.msg@));
                    assert(logged_line(old(logger)@, logger@, ed.msg@));
                }
            },
            None => {},
        }
    }

    /// Handles the outcome of one non-blocking poll of the packet queue:
    /// `None` (nothing pending) is a no-op, a packet is routed by its type
    /// tag. Returns whether the state may have changed — true exactly for a
    /// recognized type — and the CSV order to carry out, if any.
    pub fn handle_packets(
        &mut self,
        packet: Option<Packet>,
        logger: &mut MessageLogger,
        buffer: &mut DataBufferInner,
    ) -> (r: (bool, Option<CsvAction>))
        requires
            old(logger).wf(),
            wf(old(buffer)@),
        ensures
            final(logger).wf(),
            wf(final(buffer)@),
            r.0 <==> (packet matches Some(p) && recognized_kind(p.kind@)),
            packet is None ==> final(buffer)@ == old(buffer)@ && *final(self) == *old(self)
                && r.1 is None && final(logger)@ == old(logger)@,
            packet matches Some(p) ==> {
                &&& p.kind@ == "SetBattleLineup"@ ==> (final(logger)@ == old(logger)@ && ((
                r.1 matches Some(CsvAction::Create { header }) && final(buffer)@ == lineup_model(
                    old(buffer)@,
                    header@.map_values(|s: String| s@),
                ) && final(self).csv_open) || (r.1 is None && final(buffer)@ == old(buffer)@
                    && *final(self) == *old(self))))
                &&& p.kind@ == "BattleBegin"@ ==> (final(buffer)@ == old(buffer)@ && *final(self)
                    == *old(self) && r.1 is None && logged_line(
                    old(logger)@,
                    final(logger)@,
                    "Battle started"@,
                ))
                &&& p.kind@ == "TurnBegin"@ ==> (*final(self) == *old(self) && r.1 is None && ((
                exists|av: u64|
                    {
                        &&& final(buffer)@ == (StoreModel { current_av: av, ..old(buffer)@ })
                        &&& logged_line(
                            old(logger)@,
                            final(logger)@,
                            "Turn begin - AV: "@ + milli_text(av),
                        )
                    }) || (final(buffer)@ == old(buffer)@ && final(logger)@ == old(logger)@)))
                &&& p.kind@ == "OnDamage"@ ==> {
                    &&& *final(self) == *old(self)
                    &&& (exists|name: Seq<char>, amt: u64|
                        {
                            &&& final(buffer)@ == damage_model(old(buffer)@, name, amt)
                            &&& amt > 0 ==> logged_line(
                                old(logger)@,
                                final(logger)@,
                                name + " dealt "@ + milli_text(amt) + " damage"@,
                            )
                            &&& amt == 0 ==> final(logger)@ == old(logger)@
                        }) || (final(buffer)@ == old(buffer)@ && final(logger)@ == old(logger)@)
                    &&& r.1 matches Some(a) ==> (a matches CsvAction::Append { row }
                        && old(self).csv_open && (exists|name: Seq<char>, amt: u64|
                        {
                            &&& final(buffer)@ == damage_model(old(buffer)@, name, amt)
                            &&& old(buffer)@.column_names.index_of_first(name) is Some
                            &&& row@ == damage_row(old(buffer)@.column_names, name, amt)
                        }))
                }
                &&& p.kind@ == "TurnEnd"@ ==> (*final(self) == *old(self) && r.1 is None && ((
                final(buffer)@ == turn_end_model(old(buffer)@) && (exists|total: u64|
                    logged_lines_then(
                        old(logger)@,
                        final(logger)@,
                        "Total turn damage: "@ + milli_text(total),
                    ))) || (final(buffer)@ == old(buffer)@ && final(logger)@ == old(logger)@)))
                &&& p.kind@ == "OnKill"@ ==> (final(buffer)@ == old(buffer)@ && *final(self)
                    == *old(self) && r.1 is None && (final(logger)@ == old(logger)@ || (exists|
                    name: Seq<char>,
                |
                    logged_line(old(logger)@, final(logger)@, name + " has killed"@))))
                &&& p.kind@ == "OnBattleEnd"@ ==> (final(buffer)@ == battle_end_model(old(buffer)@)
                    && !final(self).csv_open && (r.1 matches Some(CsvAction::Close))
                    && logged_lines_then(
                    old(logger)@,
                    final(logger)@,
                    "Battle ended - CSV file closed"@,
                ))
                &&& p.kind@ == "OnUseSkill"@ ==> (final(buffer)@ == old(buffer)@ && *final(self)
                    == *old(self) && r.1 is None && (final(logger)@ == old(logger)@ || (exists|
                    who: Seq<char>,
                    kind: Seq<char>,
                    name: Seq<char>,
                |
                    logged_line(
                        old(logger)@,
                        final(logger)@,
                        who + " used ["@ + kind + "] "@ + name,
                    ))))
                &&& p.kind@ == "Error"@ ==> (final(buffer)@ == old(buffer)@ && *final(self)
                    == *old(self) && r.1 is None && (final(logger)@ == old(logger)@ || (exists|
                    body: Seq<char>,
                |
                    logged_line(old(logger)@, final(logger)@, body))))
                &&& !recognized_kind(p.kind@) ==> (final(buffer)@ == old(buffer)@
                    && *final(self) == *old(self) && r.1 is None && logged_line(
                    old(logger)@,
                    final(logger)@,
                    "Unknown packet type: "@ + p.kind@,
                ))
            },
    {
        proof {
            lemma_tags_distinct();
        }
        match packet {
            Some(p) => {
                if Self::kind_is(&p, "SetBattleLineup") {
                    let action = self.handle_lineup(&p.data, buffer);
                    (true, action)
                } else if Self::kind_is(&p, "BattleBegin") {
                    logger.log("Battle started");
                    proof {
                        let ts = choose|ts: Seq<char>|
                            logger@ == logs_after_append(
                                old(logger)@,
                                stamped(ts, "Battle started"@),
                            );
                        assert(logged_line(old(logger)@, logger@, "Battle started"@));
                    }
                    (true, None)
                } else if Self::kind_is(&p, "TurnBegin") {
                    self.handle_turn_begin(&p.data, logger, buffer);
                    (true, None)
                } else if Self::kind_is(&p, "OnDamage") {
                    let action = self.handle_damage(&p.data, logger, buffer);
                    (true, action)
                } else if Self::kind_is(&p, "TurnEnd") {
                    self.handle_turn_end(&p.data, logger, buffer);
                    (true, None)
                } else if Self::kind_is(&p, "OnKill") {
                    self.handle_kill(&p.data, logger);
                    (true, None)
                } else if Self::kind_is(&p, "OnBattleEnd") {
                    let action = self.handle_battle_end(logger, buffer);
                    (true, action)
                } else if Self::kind_is(&p, "OnUseSkill") {
                    self.handle_on_skill_use(&p.data, logger);
                    (true, None)
                } else if Self::kind_is(&p, "Error") {
                    self.handle_error(&p.data, logger);
                    (true, None)
                } else {
                    let mut msg = String::new();
                    msg.append("Unknown packet type: ");
                    msg.append(p.kind.as_str());
                    proof {
                        assert(msg@ =~= "Unknown packet type: "@ + p.kind@);
                    }
                    logger.log(msg.as_str());
                    proof {
                        let ts = choose|ts: Seq<char>|
                            logger@ == logs_after_append(old(logger)@, stamped(ts, msg@));
                        assert(logger@ == logs_after_append(
                            old(logger)@,
                            stamped(ts, "Unknown packet type: "@ + p.kind@),
                        ));
                        assert(logged_line(
                            old(logger)@,
                            logger@,
                            "Unknown packet type: "@ + p.kind@,
                        ));
                    }
                    (false, None)
                }
            },
            None => (false, None),
        }
    }
}

} // verus!
