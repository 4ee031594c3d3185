use vstd::prelude::*;
use crate::session::FloatCmp;
use crate::session::good_text;
use crate::session::low_text;
use crate::session::voltage_message;
use crate::session::warning_after;
use crate::topics::chat_receive_topic_text;
use crate::topics::subscription_topics;
use crate::topics::threshold_topic_text;
use crate::topics::voltage_topic_text;

verus! {

/// A reading below the threshold while no alert is outstanding raises the
/// warning flag and emits exactly one "low" alert carrying the reading's
/// rendered text.
pub proof fn lemma_low_reading_alerts(rendered: Seq<char>)
    ensures
        warning_after(false, FloatCmp::Less),
        voltage_message(false, FloatCmp::Less, rendered) == Some(low_text(rendered)),
{
}

/// A reading above the threshold while an alert is outstanding clears the
/// warning flag and emits exactly one "good" alert carrying the reading's
/// rendered text.
pub proof fn lemma_recovery_alerts(rendered: Seq<char>)
    ensures
        !warning_after(true, FloatCmp::Greater),
        voltage_message(true, FloatCmp::Greater, rendered) == Some(good_text(rendered)),
{
}

/// A reading equal to the threshold — or unordered with it — emits nothing
/// and leaves the warning flag exactly as it was; only the stored voltage
/// moves (see `apply_voltage`).
pub proof fn lemma_boundary_reading_is_quiet(active: bool, rendered: Seq<char>)
    ensures
        warning_after(active, FloatCmp::Equal) == active,
        voltage_message(active, FloatCmp::Equal, rendered) is None,
        warning_after(active, FloatCmp::Unordered) == active,
        voltage_message(active, FloatCmp::Unordered, rendered) is None,
{
}

/// Hysteresis: any low reading leaves the warning flag raised, and a
/// further low reading while the flag is raised emits no second alert and
/// keeps the flag raised — the "low" alert is never re-sent until a
/// recovery clears the flag.
pub proof fn lemma_no_second_low_alert(active: bool, second: Seq<char>)
    ensures
        warning_after(active, FloatCmp::Less),
        voltage_message(warning_after(active, FloatCmp::Less), FloatCmp::Less, second) is None,
        warning_after(warning_after(active, FloatCmp::Less), FloatCmp::Less),
{
}

/// The warning flag after a whole run of readings, first to last.
pub open spec fn warning_after_run(active: bool, cmps: Seq<FloatCmp>) -> bool
    decreases cmps.len(),
{
    if cmps.len() == 0 {
        active
    } else {
        warning_after_run(warning_after(active, cmps[0]), cmps.drop_first())
    }
}

/// Hysteresis over a whole run: while the alert is outstanding, a run of
/// readings none of which rises above the threshold emits no message at any
/// step, whatever the readings render as, and leaves the alert outstanding —
/// only a recovery can clear it.
pub proof fn lemma_quiet_run(active: bool, cmps: Seq<FloatCmp>)
    requires
        active,
        forall|i: int| 0 <= i < cmps.len() ==> cmps[i] != FloatCmp::Greater,
    ensures
        warning_after_run(active, cmps),
        forall|i: int, r: Seq<char>|
            0 <= i < cmps.len() ==> voltage_message(
                warning_after_run(active, cmps.take(i)),
                cmps[i],
                r,
            ) is None,
    decreases cmps.len(),
{
    if cmps.len() > 0 {
        assert(warning_after(active, cmps[0]));
        let rest = cmps.drop_first();
        lemma_quiet_run(true, rest);
        assert forall|i: int, r: Seq<char>| 0 <= i < cmps.len() implies voltage_message(
            warning_after_run(active, cmps.take(i)),
            cmps[i],
            r,
        ) is None by {
            if i == 0 {
                assert(cmps.take(0) =~= Seq::<FloatCmp>::empty());
                assert(warning_after_run(active, cmps.take(0)) == active);
            } else {
                assert(cmps.take(i)[0] == cmps[0]);
                assert(cmps.take(i).drop_first() =~= rest.take(i - 1));
                assert(warning_after_run(active, cmps.take(i)) == warning_after_run(
                    true,
                    rest.take(i - 1),
                ));
                assert(rest[i - 1] == cmps[i]);
                assert(voltage_message(warning_after_run(true, rest.take(i - 1)), rest[i - 1], r)
                    is None);
            }
        }
    }
}

/// The fixed topic set that each reconnection re-subscribes holds exactly
/// the three inbound topics, each exactly once.
pub proof fn lemma_topic_set_each_once()
    ensures
        subscription_topics().len() == 3,
        subscription_topics()[0] == voltage_topic_text(),
        subscription_topics()[1] == threshold_topic_text(),
        subscription_topics()[2] == chat_receive_topic_text(),
        voltage_topic_text() != threshold_topic_text(),
        voltage_topic_text() != chat_receive_topic_text(),
        threshold_topic_text() != chat_receive_topic_text(),
{
    reveal_strlit("telemetry/voltage");
    reveal_strlit("telemetry/warning_voltage");
    reveal_strlit("chat/receive/");
    assert(voltage_topic_text().len() == 17);
    assert(threshold_topic_text().len() == 25);
    assert("chat/receive/"@.len() == 13);
    assert(chat_receive_topic_text()[0] == 'c');
    assert(voltage_topic_text()[0] == 't');
    assert(threshold_topic_text()[0] == 't');
}

} // verus!
