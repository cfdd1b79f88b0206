//! The connectivity prober: the sequential, fault-tolerant engine that walks
//! the host directory in order, classifies the outcome of each attempt, and
//! publishes structured status messages to the event bus.
//!
//! The network calls themselves — the timed transport connect, the session
//! handshake, the credential authentication — are performed by the caller,
//! which hands the engine one [`HostOutcome`] per host. The engine owns
//! everything the service decides: which messages are published, with which
//! severity and text, in which order, which outcomes let the run continue,
//! and which abort it fatally.

use vstd::prelude::*;
use vstd::string::StringExecFns;
use crate::bus::EventBus;
use crate::directory::HostRecord;
use crate::message::{msg_matches, msgs_match, MessageSpec, Severity, StatusMessage};
use crate::message::now_timestamp;

verus! {

/// The session error code with which the transport library reports a
/// credential rejection; translated here, once, into the engine's own
/// taxonomy, so that nothing else depends on the numeric code.
pub const BAD_CREDENTIALS_CODE: i32 = -18;

/// How far one host's probe got, reported by the caller that performed the
/// network calls. Exactly one outcome exists per attempted host.
#[derive(Clone, Copy, PartialEq, Eq, Structural, Debug)]
pub enum HostOutcome {
    /// The transport connect did not complete within the fixed deadline.
    TimedOut,
    /// The transport connect failed for any non-timeout reason.
    ConnectFault,
    /// The session handshake over an established connection failed.
    HandshakeFault,
    /// Authentication was rejected with the given session error code.
    Rejected(i32),
    /// Authentication failed outside the session-code classification.
    AuthFault,
    /// Authentication succeeded and the session reports it authenticated.
    Authenticated,
    /// Authentication raised no error, yet the session is not authenticated.
    NotAuthenticated,
}

/// The classes of fault that abort a whole run.
#[derive(Clone, Copy, PartialEq, Eq, Structural, Debug)]
pub enum ProbeFault {
    /// A non-timeout transport failure while connecting.
    Transport,
    /// A failed session handshake.
    Handshake,
    /// An authentication failure outside the session-code classification.
    Session,
}

/// Outcomes that abort the whole run instead of moving to the next host.
pub open spec fn is_fatal(o: HostOutcome) -> bool {
    o == HostOutcome::ConnectFault || o == HostOutcome::HandshakeFault || o
        == HostOutcome::AuthFault
}

/// The fault a fatal outcome aborts the run with.
pub open spec fn fault_of(o: HostOutcome) -> ProbeFault {
    match o {
        HostOutcome::ConnectFault => ProbeFault::Transport,
        HostOutcome::HandshakeFault => ProbeFault::Handshake,
        _ => ProbeFault::Session,
    }
}

pub open spec fn attempt_text(h: HostRecord) -> Seq<char> {
    "attempting connection to "@ + h.address@ + ":"@ + h.port@ + " as "@ + h.username@
}

pub open spec fn timeout_text() -> Seq<char> {
    "Timeout after 3s"@
}

pub open spec fn bad_credentials_text() -> Seq<char> {
    "bad credentials"@
}

pub open spec fn unknown_error_text() -> Seq<char> {
    "unknown error"@
}

pub open spec fn success_text() -> Seq<char> {
    "connected successfully"@
}

pub open spec fn not_authenticated_text() -> Seq<char> {
    "failed to connect"@
}

/// The opening message of every host: an announcement of the attempt.
pub open spec fn attempt_msg(h: HostRecord) -> MessageSpec {
    MessageSpec { severity: Some(Severity::Info), text: attempt_text(h) }
}

pub open spec fn success_msg() -> MessageSpec {
    MessageSpec { severity: Some(Severity::Success), text: success_text() }
}

/// The message a non-fatal outcome closes its host with; a fatal outcome
/// publishes nothing and aborts instead.
pub open spec fn outcome_msg(o: HostOutcome) -> Option<MessageSpec> {
    match o {
        HostOutcome::TimedOut => Some(
            MessageSpec { severity: Some(Severity::Error), text: timeout_text() },
        ),
        HostOutcome::Rejected(code) => Some(
            MessageSpec {
                severity: Some(Severity::Error),
                text: if code == BAD_CREDENTIALS_CODE {
                    bad_credentials_text()
                } else {
                    unknown_error_text()
                },
            },
        ),
        HostOutcome::Authenticated => Some(success_msg()),
        HostOutcome::NotAuthenticated => Some(
            MessageSpec { severity: Some(Severity::Error), text: not_authenticated_text() },
        ),
        _ => None,
    }
}

/// Everything one host contributes to the stream: the announcement, then
/// the outcome message if the outcome is not fatal.
pub open spec fn host_script(h: HostRecord, o: HostOutcome) -> Seq<MessageSpec> {
    match outcome_msg(o) {
        Some(m) => seq![attempt_msg(h), m],
        None => seq![attempt_msg(h)],
    }
}

/// The full stream of a run: each host's contribution in directory order,
/// cut short after the first fatal outcome.
pub open spec fn run_script(hosts: Seq<HostRecord>, os: Seq<HostOutcome>) -> Seq<MessageSpec>
    decreases hosts.len(),
{
    if hosts.len() == 0 || os.len() == 0 {
        Seq::<MessageSpec>::empty()
    } else {
        host_script(hosts[0], os[0]) + if is_fatal(os[0]) {
            Seq::<MessageSpec>::empty()
        } else {
            run_script(hosts.drop_first(), os.drop_first())
        }
    }
}

/// The overall result of a run: success once every host has been attempted,
/// or the fault of the first fatal outcome.
pub open spec fn run_verdict(os: Seq<HostOutcome>) -> Result<(), ProbeFault>
    decreases os.len(),
{
    if os.len() == 0 {
        Ok(())
    } else if is_fatal(os[0]) {
        Err(fault_of(os[0]))
    } else {
        run_verdict(os.drop_first())
    }
}

/// Build the announcement for one host.
pub fn attempt_message(h: &HostRecord) -> (r: StatusMessage)
    ensures
        msg_matches(r, attempt_msg(*h)),
{
    let mut text = "attempting connection to ".to_owned();
    text.append(h.address.as_str());
    text.append(":");
    text.append(h.port.as_str());
    text.append(" as ");
    text.append(h.username.as_str());
    StatusMessage::new(now_timestamp(), Some(Severity::Info), text)
}

/// Build the closing message for one host's outcome: `None` exactly when
/// the outcome is fatal and the run aborts without a further message.
pub fn outcome_message(o: &HostOutcome) -> (r: Option<StatusMessage>)
    ensures
        r is Some <==> outcome_msg(*o) is Some,
        r is Some ==> msg_matches(r.unwrap(), outcome_msg(*o).unwrap()),
{
    match *o {
        HostOutcome::TimedOut => Some(
            StatusMessage::new(now_timestamp(), Some(Severity::Error), "Timeout after 3s".to_owned()),
        ),
        HostOutcome::Rejected(code) => {
            let text = if code == BAD_CREDENTIALS_CODE {
                "bad credentials".to_owned()
            } else {
                "unknown error".to_owned()
            };
            Some(StatusMessage::new(now_timestamp(), Some(Severity::Error), text))
        },
        HostOutcome::Authenticated => Some(
            StatusMessage::new(
                now_timestamp(),
                Some(Severity::Success),
                "connected successfully".to_owned(),
            ),
        ),
        HostOutcome::NotAuthenticated => Some(
            StatusMessage::new(
                now_timestamp(),
                Some(Severity::Error),
                "failed to connect".to_owned(),
            ),
        ),
        _ => None,
    }
}

/// Decide whether an outcome lets the run move on to the next host.
pub fn outcome_is_fatal(o: &HostOutcome) -> (r: bool)
    ensures
        r == is_fatal(*o),
{
    match *o {
        HostOutcome::ConnectFault => true,
        HostOutcome::HandshakeFault => true,
        HostOutcome::AuthFault => true,
        _ => false,
    }
}

/// The fault a fatal outcome aborts the run with.
pub fn fault_for(o: &HostOutcome) -> (r: ProbeFault)
    requires
        is_fatal(*o),
    ensures
        r == fault_of(*o),
{
    match *o {
        HostOutcome::ConnectFault => ProbeFault::Transport,
        HostOutcome::HandshakeFault => ProbeFault::Handshake,
        _ => ProbeFault::Session,
    }
}

/// Publish one host's messages: the announcement, then the outcome message
/// if the outcome is not fatal. Returns whether the run may continue.
pub fn probe_host_report(h: &HostRecord, o: &HostOutcome, bus: &mut EventBus) -> (r: bool)
    requires
        old(bus).wf(),
        !old(bus).is_closed(),
    ensures
        final(bus).wf(),
        !final(bus).is_closed(),
        final(bus).cap() == old(bus).cap(),
        final(bus).history().len() == old(bus).history().len() + host_script(*h, *o).len(),
        forall|j: int|
            0 <= j < old(bus).history().len() ==> final(bus).history()[j] == old(
                bus,
            ).history()[j],
        msgs_match(
            final(bus).history().skip(old(bus).history().len() as int),
            host_script(*h, *o),
        ),
        r == !is_fatal(*o),
{
    let ghost len0 = old(bus).history().len() as int;
    let first = attempt_message(h);
    bus.publish(first);
    match outcome_message(o) {
        Some(second) => {
            bus.publish(second);
            proof {
                assert(bus.history().skip(len0).len() == 2);
                assert(bus.history().skip(len0)[0] == bus.history()[len0]);
                assert(bus.history().skip(len0)[1] == bus.history()[len0 + 1]);
            }
            !outcome_is_fatal(o)
        },
        None => {
            proof {
                assert(bus.history().skip(len0).len() == 1);
                assert(bus.history().skip(len0)[0] == bus.history()[len0]);
            }
            !outcome_is_fatal(o)
        },
    }
}

/// Run the prober from host `i` onward. The published stream realises the
/// script of the remaining hosts and outcomes, and the result is the
/// verdict of the remaining outcomes.
fn run_from(
    hosts: &Vec<HostRecord>,
    outcomes: &Vec<HostOutcome>,
    i: usize,
    bus: &mut EventBus,
) -> (r: Result<(), ProbeFault>)
    requires
        hosts@.len() == outcomes@.len(),
        i <= hosts@.len(),
        old(bus).wf(),
        !old(bus).is_closed(),
    ensures
        final(bus).wf(),
        !final(bus).is_closed(),
        final(bus).cap() == old(bus).cap(),
        final(bus).history().len() == old(bus).history().len() + run_script(
            hosts@.skip(i as int),
            outcomes@.skip(i as int),
        ).len(),
        forall|j: int|
            0 <= j < old(bus).history().len() ==> final(bus).history()[j] == old(
                bus,
            ).history()[j],
        msgs_match(
            final(bus).history().skip(old(bus).history().len() as int),
            run_script(hosts@.skip(i as int), outcomes@.skip(i as int)),
        ),
        r == run_verdict(outcomes@.skip(i as int)),
    decreases hosts@.len() - i,
{
    let ghost len0 = old(bus).history().len() as int;
    if i == hosts.len() {
        proof {
            assert(hosts@.skip(i as int) =~= Seq::<HostRecord>::empty());
            assert(outcomes@.skip(i as int) =~= Seq::<HostOutcome>::empty());
            assert(bus.history().skip(len0) =~= Seq::<StatusMessage>::empty());
        }
        Ok(())
    } else {
        let ghost hs = hosts@.skip(i as int);
        let ghost os = outcomes@.skip(i as int);
        proof {
            assert(hs[0] == hosts@[i as int]);
            assert(os[0] == outcomes@[i as int]);
            assert(hs.drop_first() =~= hosts@.skip(i as int + 1));
            assert(os.drop_first() =~= outcomes@.skip(i as int + 1));
        }
        let cont = probe_host_report(&hosts[i], &outcomes[i], bus);
        let ghost script1 = host_script(hosts@[i as int], outcomes@[i as int]);
        if !cont {
            proof {
                assert(run_script(hs, os) =~= script1);
                assert(run_verdict(os) == Err::<(), ProbeFault>(fault_of(os[0])));
            }
            Err(fault_for(&outcomes[i]))
        } else {
            let ghost mid = bus.history();
            let r = run_from(hosts, outcomes, i + 1, bus);
            proof {
                let ghost script2 = run_script(hosts@.skip(i as int + 1), outcomes@.skip(i as int + 1));
                assert(run_script(hs, os) == script1 + script2);
                let log = bus.history().skip(len0);
                assert(log.take(script1.len() as int) =~= mid.skip(len0)) by {
                    assert(forall|j: int|
                        0 <= j < mid.len() ==> bus.history()[j] == #[trigger] mid[j]);
                }
                assert(log.skip(script1.len() as int) =~= bus.history().skip(mid.len() as int));
                lemma_msgs_match_concat(log, script1, script2);
                assert(run_verdict(os) == run_verdict(os.drop_first()));
            }
            r
        }
    }
}

proof fn lemma_msgs_match_concat(log: Seq<StatusMessage>, s1: Seq<MessageSpec>, s2: Seq<MessageSpec>)
    requires
        log.len() == s1.len() + s2.len(),
        msgs_match(log.take(s1.len() as int), s1),
        msgs_match(log.skip(s1.len() as int), s2),
    ensures
        msgs_match(log, s1 + s2),
{
    assert forall|i: int| 0 <= i < log.len() implies msg_matches(#[trigger] log[i], (s1 + s2)[i]) by {
        if i < s1.len() {
            assert(log.take(s1.len() as int)[i] == log[i]);
            assert((s1 + s2)[i] == s1[i]);
        } else {
            assert(log.skip(s1.len() as int)[i - s1.len()] == log[i]);
            assert((s1 + s2)[i] == s2[i - s1.len()]);
        }
    }
}

/// Run the connectivity check for every host in directory order, publishing
/// each host's messages to the bus as the run goes. The published stream is
/// exactly the run's script, and the result is success once every host has
/// been attempted, or the fault of the first fatal outcome, after which no
/// further host is attempted or reported.
pub fn run_probe(
    hosts: &Vec<HostRecord>,
    outcomes: &Vec<HostOutcome>,
    bus: &mut EventBus,
) -> (r: Result<(), ProbeFault>)
    requires
        hosts@.len() == outcomes@.len(),
        old(bus).wf(),
        !old(bus).is_closed(),
    ensures
        final(bus).wf(),
        !final(bus).is_closed(),
        final(bus).cap() == old(bus).cap(),
        final(bus).history().len() == old(bus).history().len() + run_script(
            hosts@,
            outcomes@,
        ).len(),
        forall|j: int|
            0 <= j < old(bus).history().len() ==> final(bus).history()[j] == old(
                bus,
            ).history()[j],
        msgs_match(
            final(bus).history().skip(old(bus).history().len() as int),
            run_script(hosts@, outcomes@),
        ),
        r == run_verdict(outcomes@),
{
    proof {
        assert(hosts@.skip(0) =~= hosts@);
        assert(outcomes@.skip(0) =~= outcomes@);
    }
    run_from(hosts, outcomes, 0, bus)
}

/// A run in which every host authenticates publishes exactly two messages
/// per host — the announcement, then the success — in directory order, and
/// ends in the success verdict.
pub proof fn lemma_run_all_success(hosts: Seq<HostRecord>, os: Seq<HostOutcome>)
    requires
        os.len() == hosts.len(),
        forall|i: int| 0 <= i < os.len() ==> #[trigger] os[i] == HostOutcome::Authenticated,
    ensures
        run_verdict(os) == Ok::<(), ProbeFault>(()),
        run_script(hosts, os).len() == 2 * hosts.len(),
        forall|i: int|
            0 <= i < hosts.len() ==> run_script(hosts, os)[2 * i] == attempt_msg(
                #[trigger] hosts[i],
            ) && run_script(hosts, os)[2 * i + 1] == success_msg(),
    decreases hosts.len(),
{
    if hosts.len() > 0 {
        let hr = hosts.drop_first();
        let or = os.drop_first();
        assert(forall|i: int| 0 <= i < or.len() ==> #[trigger] or[i] == os[i + 1]);
        lemma_run_all_success(hr, or);
        let head = seq![attempt_msg(hosts[0]), success_msg()];
        assert(run_script(hosts, os) == head + run_script(hr, or));
        assert forall|i: int| 0 <= i < hosts.len() implies run_script(hosts, os)[2 * i]
            == attempt_msg(#[trigger] hosts[i]) && run_script(hosts, os)[2 * i + 1]
            == success_msg() by {
            if i > 0 {
                assert(hr[i - 1] == hosts[i]);
                assert(run_script(hosts, os)[2 * i] == run_script(hr, or)[2 * (i - 1)]);
                assert(run_script(hosts, os)[2 * i + 1] == run_script(hr, or)[2 * (i - 1) + 1]);
            }
        }
    }
}

/// A connect timeout is recoverable: the host contributes its announcement
/// and an error whose text is the timeout text, and the rest of the run is
/// exactly the run over the remaining hosts — same stream, same verdict.
pub proof fn lemma_timeout_skips_host(hosts: Seq<HostRecord>, os: Seq<HostOutcome>)
    requires
        hosts.len() > 0,
        os.len() == hosts.len(),
        os[0] == HostOutcome::TimedOut,
    ensures
        run_script(hosts, os) =~= seq![
            attempt_msg(hosts[0]),
            MessageSpec { severity: Some(Severity::Error), text: timeout_text() },
        ] + run_script(hosts.drop_first(), os.drop_first()),
        run_verdict(os) == run_verdict(os.drop_first()),
{
}

/// Authentication rejections are classified by the session code: the
/// bad-credentials code yields the bad-credentials error text, every other
/// code the unknown-error text, and either way the run goes on to the next
/// host.
pub proof fn lemma_rejection_classified(hosts: Seq<HostRecord>, os: Seq<HostOutcome>, code: i32)
    requires
        hosts.len() > 0,
        os.len() == hosts.len(),
        os[0] == HostOutcome::Rejected(code),
    ensures
        run_script(hosts, os) =~= seq![
            attempt_msg(hosts[0]),
            MessageSpec {
                severity: Some(Severity::Error),
                text: if code == BAD_CREDENTIALS_CODE {
                    bad_credentials_text()
                } else {
                    unknown_error_text()
                },
            },
        ] + run_script(hosts.drop_first(), os.drop_first()),
        run_verdict(os) == run_verdict(os.drop_first()),
{
}

} // verus!

