//! The signing worker's per-tick decisions: enforce the single-identity
//! policy over the key store's enumerated identities, build the signing
//! request for the selected identity, and report the outcome through
//! leveled log entries. The host invokes the worker once per tick, performs
//! the key-store calls, and hands each observation back; every failure here
//! is terminal for the tick only and surfaces as a log entry alone.

use vstd::prelude::*;
use crate::hexenc::{hex_encode, hex_of};

verus! {

/// The severity class of a log entry.
#[derive(Clone, Copy, PartialEq, Eq, Structural, Debug)]
pub enum Level {
    Info,
    Error,
}

/// One entry the worker hands to the host's logging sink.
#[derive(Clone, PartialEq, Eq, Debug)]
pub enum LogEntry {
    /// The key store held no identity under the signing namespace.
    NoAccount,
    /// The key store held several identities; the policy refuses to pick.
    MultipleAccounts,
    /// The key store declined to produce a signature at signing time.
    CouldNotSign,
    /// A signature was produced; both fields are lowercase hexadecimal.
    Signed { account_hex: String, signature_hex: String },
}

/// Ghost description of a log entry, with the rendered strings as
/// character sequences.
pub enum LogView {
    NoAccount,
    MultipleAccounts,
    CouldNotSign,
    Signed { account_hex: Seq<char>, signature_hex: Seq<char> },
}

impl View for LogEntry {
    type V = LogView;

    open spec fn view(&self) -> LogView {
        match self {
            LogEntry::NoAccount => LogView::NoAccount,
            LogEntry::MultipleAccounts => LogView::MultipleAccounts,
            LogEntry::CouldNotSign => LogView::CouldNotSign,
            LogEntry::Signed { account_hex, signature_hex } => LogView::Signed {
                account_hex: account_hex@,
                signature_hex: signature_hex@,
            },
        }
    }
}

/// The severity the sink receives for an entry: info for a produced
/// signature, error for every other outcome.
pub open spec fn spec_level(entry: LogView) -> Level {
    match entry {
        LogView::Signed { .. } => Level::Info,
        _ => Level::Error,
    }
}

impl LogEntry {
    /// The severity class of this entry.
    pub fn level(&self) -> (r: Level)
        ensures
            r == spec_level(self@),
    {
        match self {
            LogEntry::Signed { .. } => Level::Info,
            _ => Level::Error,
        }
    }
}

/// What the single-identity policy decides for a tick once the key store's
/// identities have been enumerated.
pub enum TickStep {
    /// Zero or several identities: log this entry and end the tick's work.
    Report(LogEntry),
    /// Exactly one identity: try to sign with this public key.
    Sign { public: Vec<u8> },
}

/// Ghost description of a tick decision.
pub enum StepView {
    Report(LogView),
    Sign { public: Seq<u8> },
}

impl View for TickStep {
    type V = StepView;

    open spec fn view(&self) -> StepView {
        match self {
            TickStep::Report(entry) => StepView::Report(entry@),
            TickStep::Sign { public } => StepView::Sign { public: public@ },
        }
    }
}

/// The single-identity policy over the enumerated public keys: signing
/// proceeds exactly when there is one identity, and then with that one.
pub open spec fn spec_evaluate(accounts: Seq<Seq<u8>>) -> StepView {
    if accounts.len() == 0 {
        StepView::Report(LogView::NoAccount)
    } else if accounts.len() == 1 {
        StepView::Sign { public: accounts[0] }
    } else {
        StepView::Report(LogView::MultipleAccounts)
    }
}

/// The entry reported once a signing attempt has returned: the identity
/// and signature rendered in hexadecimal on success, `CouldNotSign`
/// otherwise.
pub open spec fn spec_report(outcome: Option<(Seq<u8>, Seq<u8>)>) -> LogView {
    match outcome {
        Some((account, signature)) => LogView::Signed {
            account_hex: hex_of(account),
            signature_hex: hex_of(signature),
        },
        None => LogView::CouldNotSign,
    }
}

/// The fixed message payload every signing attempt covers, `some_message`
/// in ASCII.
pub open spec fn spec_message() -> Seq<u8> {
    seq![115u8, 111u8, 109u8, 101u8, 95u8, 109u8, 101u8, 115u8, 115u8, 97u8, 103u8, 101u8]
}

/// Every log entry one tick produces, as a function of what the key store
/// showed: the enumerated identities, whether the restricted identity set
/// was capable of signing, and the outcome of the signing attempt if one
/// was made. An incapable set is skipped silently, so such a tick logs
/// nothing.
pub open spec fn spec_tick_logs(
    accounts: Seq<Seq<u8>>,
    capable: bool,
    outcome: Option<(Seq<u8>, Seq<u8>)>,
) -> Seq<LogView> {
    match spec_evaluate(accounts) {
        StepView::Report(entry) => seq![entry],
        StepView::Sign { .. } => if capable {
            seq![spec_report(outcome)]
        } else {
            Seq::empty()
        },
    }
}

/// Copies a byte string.
fn copy_bytes(src: &Vec<u8>) -> (r: Vec<u8>)
    ensures
        r@ == src@,
{
    let mut out: Vec<u8> = Vec::new();
    let mut i: usize = 0;
    while i < src.len()
        invariant
            i <= src.len(),
            out@ =~= src@.subrange(0, i as int),
        decreases src.len() - i,
    {
        out.push(src[i]);
        i = i + 1;
    }
    proof {
        assert(out@ =~= src@);
    }
    out
}

/// Applies the single-identity policy to the identities enumerated from
/// the key store at the start of a tick.
pub fn evaluate_accounts(accounts: &Vec<Vec<u8>>) -> (r: TickStep)
    ensures
        r@ == spec_evaluate(accounts.deep_view()),
{
    proof {
        assert(accounts.deep_view().len() == accounts@.len());
    }
    if accounts.len() == 0 {
        TickStep::Report(LogEntry::NoAccount)
    } else if accounts.len() == 1 {
        let public = copy_bytes(&accounts[0]);
        proof {
            assert(public@ =~= accounts.deep_view()[0]);
        }
        TickStep::Sign { public }
    } else {
        TickStep::Report(LogEntry::MultipleAccounts)
    }
}

/// A signing request restricted to one identity: the public key the key
/// store must sign with, and the message to cover.
pub struct SignRequest {
    pub public: Vec<u8>,
    pub message: Vec<u8>,
}

/// Builds the signing request for the selected identity once the key store
/// has said whether the restricted identity set is capable of signing: the
/// fixed message with that key when capable, nothing — a silent skip for
/// this tick — otherwise.
pub fn sign_request(capable: bool, public: Vec<u8>) -> (r: Option<SignRequest>)
    ensures
        capable ==> (r matches Some(req)
            && req.public@ == public@
            && req.message@ == spec_message()),
        !capable ==> r is None,
{
    if capable {
        let mut message: Vec<u8> = Vec::new();
        message.push(115);
        message.push(111);
        message.push(109);
        message.push(101);
        message.push(95);
        message.push(109);
        message.push(101);
        message.push(115);
        message.push(115);
        message.push(97);
        message.push(103);
        message.push(101);
        proof {
            assert(message@ =~= spec_message());
        }
        Some(SignRequest { public, message })
    } else {
        None
    }
}

/// What a successful signing attempt hands back: the identity that signed
/// and the signature bytes.
pub struct SignedMessage {
    pub account: Vec<u8>,
    pub signature: Vec<u8>,
}

/// Turns the outcome of a signing attempt into the single entry the tick
/// logs: the hexadecimal renderings of identity and signature at info
/// level when a signature came back, the `CouldNotSign` error when the key
/// store declined.
pub fn report_outcome(outcome: Option<SignedMessage>) -> (r: LogEntry)
    ensures
        outcome matches Some(m) ==> r@ == spec_report(Some((m.account@, m.signature@))),
        outcome is None ==> r@ == spec_report(None::<(Seq<u8>, Seq<u8>)>),
{
    match outcome {
        Some(m) => {
            let account_hex = hex_encode(&m.account);
            let signature_hex = hex_encode(&m.signature);
            LogEntry::Signed { account_hex, signature_hex }
        },
        None => LogEntry::CouldNotSign,
    }
}

/// A tick that enumerates no identity makes no signing attempt and logs
/// exactly one entry, the `NoAccount` error, whatever the key store would
/// have answered later in the tick.
pub proof fn lemma_tick_no_account(
    accounts: Seq<Seq<u8>>,
    capable: bool,
    outcome: Option<(Seq<u8>, Seq<u8>)>,
)
    requires
        accounts.len() == 0,
    ensures
        spec_evaluate(accounts) == StepView::Report(LogView::NoAccount),
        spec_tick_logs(accounts, capable, outcome) == seq![LogView::NoAccount],
        spec_level(spec_tick_logs(accounts, capable, outcome)[0]) == Level::Error,
{
    assert(spec_tick_logs(accounts, capable, outcome) =~= seq![LogView::NoAccount]);
}

/// A tick that enumerates two or more identities makes no signing attempt
/// and logs exactly one entry, the `MultipleAccounts` error — distinct
/// from the entry of the no-identity case.
pub proof fn lemma_tick_multiple_accounts(
    accounts: Seq<Seq<u8>>,
    capable: bool,
    outcome: Option<(Seq<u8>, Seq<u8>)>,
)
    requires
        accounts.len() >= 2,
    ensures
        spec_evaluate(accounts) == StepView::Report(LogView::MultipleAccounts),
        spec_tick_logs(accounts, capable, outcome) == seq![LogView::MultipleAccounts],
        spec_level(spec_tick_logs(accounts, capable, outcome)[0]) == Level::Error,
        spec_tick_logs(accounts, capable, outcome)[0] != LogView::NoAccount,
{
    assert(spec_tick_logs(accounts, capable, outcome) =~= seq![LogView::MultipleAccounts]);
}

/// A tick with exactly one identity whose signing attempt returns a
/// signature logs exactly one entry, at info level, holding the
/// hexadecimal renderings of that identity and of the signature.
pub proof fn lemma_tick_signed(
    accounts: Seq<Seq<u8>>,
    account: Seq<u8>,
    signature: Seq<u8>,
)
    requires
        accounts.len() == 1,
    ensures
        spec_evaluate(accounts) == (StepView::Sign { public: accounts[0] }),
        spec_tick_logs(accounts, true, Some((account, signature))) == seq![(LogView::Signed {
            account_hex: hex_of(account),
            signature_hex: hex_of(signature),
        })],
        spec_level(spec_tick_logs(accounts, true, Some((account, signature)))[0]) == Level::Info,
{
    assert(spec_tick_logs(accounts, true, Some((account, signature))) =~= seq![LogView::Signed {
        account_hex: hex_of(account),
        signature_hex: hex_of(signature),
    }]);
}

/// A tick with exactly one identity whose signing attempt comes back empty
/// logs exactly one entry, the `CouldNotSign` error — distinct from the
/// entries of the no-identity and multiple-identity cases.
pub proof fn lemma_tick_sign_declined(accounts: Seq<Seq<u8>>)
    requires
        accounts.len() == 1,
    ensures
        spec_tick_logs(accounts, true, None::<(Seq<u8>, Seq<u8>)>) == seq![LogView::CouldNotSign],
        spec_level(spec_tick_logs(accounts, true, None::<(Seq<u8>, Seq<u8>)>)[0]) == Level::Error,
        spec_tick_logs(accounts, true, None::<(Seq<u8>, Seq<u8>)>)[0] != LogView::NoAccount,
        spec_tick_logs(accounts, true, None::<(Seq<u8>, Seq<u8>)>)[0] != LogView::MultipleAccounts,
{
    assert(spec_tick_logs(accounts, true, None::<(Seq<u8>, Seq<u8>)>) =~= seq![
        LogView::CouldNotSign,
    ]);
}

/// What one tick observes of the key store.
pub struct TickObservation {
    pub accounts: Seq<Seq<u8>>,
    pub capable: bool,
    pub outcome: Option<(Seq<u8>, Seq<u8>)>,
}

/// The logs of a run of consecutive ticks, each evaluated on its own
/// observation.
pub open spec fn spec_run_logs(ticks: Seq<TickObservation>) -> Seq<Seq<LogView>> {
    ticks.map(|i: int, t: TickObservation| spec_tick_logs(t.accounts, t.capable, t.outcome))
}

/// No memoization across ticks: every tick's logs are a function of that
/// tick's own key-store observation alone, whatever earlier ticks
/// observed.
pub proof fn lemma_ticks_independent(ticks: Seq<TickObservation>, i: int)
    requires
        0 <= i < ticks.len(),
    ensures
        spec_run_logs(ticks)[i] == spec_tick_logs(ticks[i].accounts, ticks[i].capable,
            ticks[i].outcome),
{
}

/// A membership change between ticks changes the outcome accordingly: a
/// tick that saw two or more identities reports the multiple-identity
/// error, and a later tick that sees exactly one capable identity whose
/// signing attempt succeeds logs the signature instead.
pub proof fn lemma_membership_change_heals(
    ticks: Seq<TickObservation>,
    i: int,
    j: int,
    account: Seq<u8>,
    signature: Seq<u8>,
)
    requires
        0 <= i < j < ticks.len(),
        ticks[i].accounts.len() >= 2,
        ticks[j].accounts.len() == 1,
        ticks[j].capable,
        ticks[j].outcome == Some((account, signature)),
    ensures
        spec_run_logs(ticks)[i] == seq![LogView::MultipleAccounts],
        spec_run_logs(ticks)[j] == seq![(LogView::Signed {
            account_hex: hex_of(account),
            signature_hex: hex_of(signature),
        })],
{
    lemma_tick_multiple_accounts(ticks[i].accounts, ticks[i].capable, ticks[i].outcome);
    lemma_tick_signed(ticks[j].accounts, account, signature);
}

} // verus!
