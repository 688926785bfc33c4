//! The transfer engine: an account store with nonnegative fixed-point
//! balances, an append-only ledger of completed transfers, and the one
//! core operation that moves value between two accounts.
//!
//! The whole transfer — validate, resolve sender, check funds, resolve
//! recipient, debit, credit, record — runs as one operation on the
//! store, so no intermediate state is ever observable; a rejected
//! transfer leaves the store untouched. Lock acquisition against a
//! concurrent backend must follow the canonical ordering given by
//! [`lock_order`], which is role-independent, so two transfers over the
//! same pair of accounts can never deadlock.
//!
//! Known hardening gap: there is no idempotency key or
//! duplicate-submission guard, so a client that retries a request after
//! a timed-out response can apply the same transfer twice.

use vstd::prelude::*;
use vstd::pervasive::VecAdditionalExecFns;

verus! {

/// A stored account: a stable numeric identifier, the unique
/// human-facing account number, and the balance in cents.
pub struct Account {
    pub id: u64,
    pub number: String,
    pub balance: i64,
}

/// The outcome recorded for a transfer. Only completed transfers are
/// written to the ledger in the current design.
#[derive(Clone, Copy, PartialEq, Eq, Structural, Debug)]
pub enum TxStatus {
    Completed,
    Failed,
}

/// One immutable ledger entry: who paid whom, how much, and when.
pub struct TransactionRecord {
    pub id: u64,
    pub from_account: String,
    pub to_account: String,
    pub amount: i64,
    pub description: Option<String>,
    pub status: TxStatus,
    pub created_at: i64,
}

/// The normalized (recipient, amount, description) triple the engine
/// consumes, however it was obtained.
pub struct TransferIntent {
    pub recipient: String,
    pub amount: i64,
    pub description: Option<String>,
}

/// What a successful transfer reports back, including the sender's
/// post-transfer balance.
pub struct TransferReceipt {
    pub transaction_id: u64,
    pub from_account: String,
    pub to_account: String,
    pub amount: i64,
    pub new_sender_balance: i64,
    pub timestamp: i64,
}

/// Every way a transfer can be refused. Validation failures are
/// detected before any account is read; business failures after the
/// accounts are locked but before any write; `StorageOverflow` means
/// the credited balance or the next record identifier would no longer
/// fit its stored width — a storage-level failure.
#[derive(Clone, Copy, PartialEq, Eq, Structural, Debug)]
pub enum TransferError {
    InvalidAmount,
    InvalidRecipient,
    AccountNotFound,
    InsufficientFunds,
    RecipientNotFound,
    StorageOverflow,
}

/// The account store together with the ledger: the single transactional
/// backend the engine runs against.
pub struct Bank {
    pub accounts: Vec<Account>,
    pub ledger: Vec<TransactionRecord>,
}

impl TransactionRecord {
    /// A field-for-field copy of the record.
    pub fn duplicate(&self) -> (r: TransactionRecord)
        ensures
            r@ == self@,
    {
        TransactionRecord {
            id: self.id,
            from_account: self.from_account.clone(),
            to_account: self.to_account.clone(),
            amount: self.amount,
            description: match &self.description {
                Some(d) => Some(d.clone()),
                None => None,
            },
            status: self.status,
            created_at: self.created_at,
        }
    }
}

/// Mathematical image of an [`Account`].
#[verifier::ext_equal]
pub struct AccountV {
    pub id: u64,
    pub number: Seq<char>,
    pub balance: int,
}

/// Mathematical image of a [`TransactionRecord`].
#[verifier::ext_equal]
pub struct RecordV {
    pub id: u64,
    pub from_account: Seq<char>,
    pub to_account: Seq<char>,
    pub amount: int,
    pub description: Option<Seq<char>>,
    pub status: TxStatus,
    pub created_at: int,
}

/// Mathematical image of a [`TransferIntent`].
#[verifier::ext_equal]
pub struct IntentV {
    pub recipient: Seq<char>,
    pub amount: int,
    pub description: Option<Seq<char>>,
}

/// Mathematical image of a [`TransferReceipt`].
#[verifier::ext_equal]
pub struct ReceiptV {
    pub transaction_id: u64,
    pub from_account: Seq<char>,
    pub to_account: Seq<char>,
    pub amount: int,
    pub new_sender_balance: int,
    pub timestamp: int,
}

/// Mathematical image of a [`Bank`].
#[verifier::ext_equal]
pub struct BankV {
    pub accounts: Seq<AccountV>,
    pub ledger: Seq<RecordV>,
}

/// The view of an optional description.
pub open spec fn opt_str_view(d: Option<String>) -> Option<Seq<char>> {
    match d {
        Some(s) => Some(s@),
        None => None,
    }
}

impl View for Account {
    type V = AccountV;

    open spec fn view(&self) -> AccountV {
        AccountV { id: self.id, number: self.number@, balance: self.balance as int }
    }
}

impl View for TransactionRecord {
    type V = RecordV;

    open spec fn view(&self) -> RecordV {
        RecordV {
            id: self.id,
            from_account: self.from_account@,
            to_account: self.to_account@,
            amount: self.amount as int,
            description: opt_str_view(self.description),
            status: self.status,
            created_at: self.created_at as int,
        }
    }
}

impl View for TransferIntent {
    type V = IntentV;

    open spec fn view(&self) -> IntentV {
        IntentV {
            recipient: self.recipient@,
            amount: self.amount as int,
            description: opt_str_view(self.description),
        }
    }
}

impl View for TransferReceipt {
    type V = ReceiptV;

    open spec fn view(&self) -> ReceiptV {
        ReceiptV {
            transaction_id: self.transaction_id,
            from_account: self.from_account@,
            to_account: self.to_account@,
            amount: self.amount as int,
            new_sender_balance: self.new_sender_balance as int,
            timestamp: self.timestamp as int,
        }
    }
}

impl View for Bank {
    type V = BankV;

    open spec fn view(&self) -> BankV {
        BankV {
            accounts: self.accounts@.map_values(|a: Account| a@),
            ledger: self.ledger@.map_values(|r: TransactionRecord| r@),
        }
    }
}

/// The first account at or after position `i` with identifier `id`.
pub open spec fn idx_of_id_from(accs: Seq<AccountV>, id: u64, i: int) -> Option<int>
    recommends
        0 <= i <= accs.len(),
    decreases accs.len() - i,
{
    if i < 0 || i >= accs.len() {
        None
    } else if accs[i].id == id {
        Some(i)
    } else {
        idx_of_id_from(accs, id, i + 1)
    }
}

/// The first account at or after position `i` with account number `number`.
pub open spec fn idx_of_number_from(accs: Seq<AccountV>, number: Seq<char>, i: int) -> Option<int>
    recommends
        0 <= i <= accs.len(),
    decreases accs.len() - i,
{
    if i < 0 || i >= accs.len() {
        None
    } else if accs[i].number == number {
        Some(i)
    } else {
        idx_of_number_from(accs, number, i + 1)
    }
}

proof fn lemma_idx_of_id_from(accs: Seq<AccountV>, id: u64, i: int)
    requires
        0 <= i <= accs.len(),
    ensures
        match idx_of_id_from(accs, id, i) {
            Some(k) => i <= k < accs.len() && accs[k].id == id,
            None => forall|j: int| i <= j < accs.len() ==> (#[trigger] accs[j].id) != id,
        },
    decreases accs.len() - i,
{
    if i < accs.len() && accs[i].id != id {
        lemma_idx_of_id_from(accs, id, i + 1);
    }
}

proof fn lemma_idx_of_number_from(accs: Seq<AccountV>, number: Seq<char>, i: int)
    requires
        0 <= i <= accs.len(),
    ensures
        match idx_of_number_from(accs, number, i) {
            Some(k) => i <= k < accs.len() && accs[k].number == number,
            None => forall|j: int| i <= j < accs.len() ==> (#[trigger] accs[j].number) != number,
        },
    decreases accs.len() - i,
{
    if i < accs.len() && accs[i].number != number {
        lemma_idx_of_number_from(accs, number, i + 1);
    }
}

/// Well-formedness of the store: identifiers and account numbers are
/// unique, balances never go negative and always fit the stored width,
/// and the ledger is an append-only run of positive-amount records
/// whose identifiers are their positions.
pub open spec fn bank_wf(b: BankV) -> bool {
    &&& forall|i: int, j: int|
        0 <= i < j < b.accounts.len() ==> #[trigger] b.accounts[i].id != #[trigger] b.accounts[j].id
    &&& forall|i: int, j: int|
        0 <= i < j < b.accounts.len() ==> #[trigger] b.accounts[i].number
            != #[trigger] b.accounts[j].number
    &&& forall|i: int| 0 <= i < b.accounts.len() ==> 0 <= #[trigger] b.accounts[i].balance <= i64::MAX
    &&& b.ledger.len() <= u64::MAX
    &&& forall|k: int| 0 <= k < b.ledger.len() ==> (#[trigger] b.ledger[k].id) == k
    &&& forall|k: int| 0 <= k < b.ledger.len() ==> (#[trigger] b.ledger[k].amount) > 0
}

/// The canonical lock ordering: the pair `{a, b}` in ascending order of
/// the stable account identifier, independent of which account is the
/// sender. Locking rows in this order prevents lock-ordering deadlocks
/// between two concurrent transfers over the same pair of accounts.
pub open spec fn spec_lock_order(a: u64, b: u64) -> (u64, u64) {
    if a <= b {
        (a, b)
    } else {
        (b, a)
    }
}

/// Computes the canonical lock acquisition order for two account
/// identifiers: ascending, whatever the roles of the two accounts.
pub fn lock_order(a: u64, b: u64) -> (r: (u64, u64))
    ensures
        r == spec_lock_order(a, b),
        r.0 <= r.1,
        (r.0 == a && r.1 == b) || (r.0 == b && r.1 == a),
{
    if a <= b {
        (a, b)
    } else {
        (b, a)
    }
}

/// Law: deadlock freedom by canonical ordering. The lock acquisition
/// order for a pair of accounts does not depend on which of them is
/// the sender, so two concurrent transfers moving funds in opposite
/// directions between the same two accounts request their row locks in
/// the same order and cannot form a wait cycle.
pub proof fn lemma_lock_order_symmetric(a: u64, b: u64)
    ensures
        spec_lock_order(a, b) == spec_lock_order(b, a),
        spec_lock_order(a, b).0 <= spec_lock_order(a, b).1,
{
}

/// The transfer transition: what one call of the engine returns and
/// what it leaves in the store, as a function of the store, the
/// sender's account identifier, the intent, and the timestamp.
///
/// The checks run in the engine's fixed order: amount, recipient
/// syntax, sender resolution, funds, recipient resolution, stored-width
/// overflow. Every rejection leaves the store exactly as it was; a
/// success debits the sender, credits the recipient, and appends one
/// completed record whose identifier is the ledger position.
pub open spec fn spec_execute(b: BankV, sender_id: u64, intent: IntentV, now: i64) -> (Result<
    ReceiptV,
    TransferError,
>, BankV) {
    if intent.amount <= 0 {
        (Err(TransferError::InvalidAmount), b)
    } else if intent.recipient.len() == 0 {
        (Err(TransferError::InvalidRecipient), b)
    } else {
        match idx_of_id_from(b.accounts, sender_id, 0) {
            None => (Err(TransferError::AccountNotFound), b),
            Some(si) => {
                if b.accounts[si].balance < intent.amount {
                    (Err(TransferError::InsufficientFunds), b)
                } else {
                    match idx_of_number_from(b.accounts, intent.recipient, 0) {
                        None => (Err(TransferError::RecipientNotFound), b),
                        Some(ri) => {
                            if (si != ri && b.accounts[ri].balance + intent.amount > i64::MAX)
                                || b.ledger.len() >= u64::MAX {
                                (Err(TransferError::StorageOverflow), b)
                            } else {
                                let sender = b.accounts[si];
                                let recipient = b.accounts[ri];
                                let debited = AccountV {
                                    id: sender.id,
                                    number: sender.number,
                                    balance: sender.balance - intent.amount,
                                };
                                let accounts1 = b.accounts.update(si, debited);
                                let credited = AccountV {
                                    id: accounts1[ri].id,
                                    number: accounts1[ri].number,
                                    balance: accounts1[ri].balance + intent.amount,
                                };
                                let accounts2 = accounts1.update(ri, credited);
                                let rec = RecordV {
                                    id: b.ledger.len() as u64,
                                    from_account: sender.number,
                                    to_account: recipient.number,
                                    amount: intent.amount,
                                    description: intent.description,
                                    status: TxStatus::Completed,
                                    created_at: now as int,
                                };
                                let receipt = ReceiptV {
                                    transaction_id: b.ledger.len() as u64,
                                    from_account: sender.number,
                                    to_account: recipient.number,
                                    amount: intent.amount,
                                    new_sender_balance: accounts2[si].balance,
                                    timestamp: now as int,
                                };
                                (Ok(receipt), BankV { accounts: accounts2, ledger: b.ledger.push(rec) })
                            }
                        },
                    }
                }
            },
        }
    }
}

/// Whether an account with this identifier, number and opening balance
/// may be added to the store: the balance must be nonnegative and both
/// keys must be fresh.
pub open spec fn spec_can_open(b: BankV, id: u64, number: Seq<char>, balance: int) -> bool {
    &&& balance >= 0
    &&& idx_of_id_from(b.accounts, id, 0) is None
    &&& idx_of_number_from(b.accounts, number, 0) is None
}

/// The newest-first sequence of the at most `limit` youngest records
/// among `ledger[..upto]` that touch the account numbered `number`.
pub open spec fn spec_query_from(
    ledger: Seq<RecordV>,
    number: Seq<char>,
    upto: int,
    limit: int,
) -> Seq<RecordV>
    recommends
        0 <= upto <= ledger.len(),
    decreases upto,
{
    if upto <= 0 || limit <= 0 {
        Seq::empty()
    } else if ledger[upto - 1].from_account == number || ledger[upto - 1].to_account == number {
        seq![ledger[upto - 1]] + spec_query_from(ledger, number, upto - 1, limit - 1)
    } else {
        spec_query_from(ledger, number, upto - 1, limit)
    }
}

/// Law: the transfer transition preserves well-formedness of the
/// store — identifier and account-number uniqueness, nonnegative
/// in-width balances, and the append-only ledger numbering survive
/// every outcome, successful or rejected.
pub proof fn lemma_execute_preserves_wf(b: BankV, sender_id: u64, intent: IntentV, now: i64)
    requires
        bank_wf(b),
    ensures
        bank_wf(spec_execute(b, sender_id, intent, now).1),
{
    let o = spec_execute(b, sender_id, intent, now);
    if o.0 is Ok {
        match idx_of_id_from(b.accounts, sender_id, 0) {
            None => {},
            Some(si) => {
                match idx_of_number_from(b.accounts, intent.recipient, 0) {
                    None => {},
                    Some(ri) => {
                        lemma_idx_of_id_from(b.accounts, sender_id, 0);
                        lemma_idx_of_number_from(b.accounts, intent.recipient, 0);
                        assert(forall|k: int|
                            0 <= k < o.1.accounts.len() ==> (#[trigger] o.1.accounts[k]).id
                                == b.accounts[k].id && o.1.accounts[k].number
                                == b.accounts[k].number);
                        assert(forall|k: int|
                            0 <= k < o.1.ledger.len() - 1 ==> o.1.ledger[k] == #[trigger] b.ledger[k]);
                    },
                }
            },
        }
    }
}

/// Law: conservation of balance. Whenever the transition succeeds, the
/// combined balance of the sender's and the recipient's accounts after
/// the transfer equals their combined balance before it.
pub proof fn lemma_transfer_conserves(b: BankV, sender_id: u64, intent: IntentV, now: i64)
    requires
        bank_wf(b),
        spec_execute(b, sender_id, intent, now).0 is Ok,
    ensures
        ({
            let b2 = spec_execute(b, sender_id, intent, now).1;
            &&& idx_of_id_from(b.accounts, sender_id, 0) is Some
            &&& idx_of_number_from(b.accounts, intent.recipient, 0) is Some
            &&& ({
                let si = idx_of_id_from(b.accounts, sender_id, 0).unwrap();
                let ri = idx_of_number_from(b.accounts, intent.recipient, 0).unwrap();
                b2.accounts[si].balance + b2.accounts[ri].balance == b.accounts[si].balance
                    + b.accounts[ri].balance
            })
        }),
{
    lemma_idx_of_id_from(b.accounts, sender_id, 0);
    lemma_idx_of_number_from(b.accounts, intent.recipient, 0);
}

/// Law: exactness. A successful transfer of `intent.amount` leaves the
/// sender's balance exactly `intent.amount` lower and the recipient's
/// exactly `intent.amount` higher (unchanged when sender and recipient
/// are the same account), and touches no other account's balance —
/// integer cents arithmetic, so no rounding can drift.
pub proof fn lemma_transfer_exact(b: BankV, sender_id: u64, intent: IntentV, now: i64)
    requires
        bank_wf(b),
        spec_execute(b, sender_id, intent, now).0 is Ok,
    ensures
        ({
            let b2 = spec_execute(b, sender_id, intent, now).1;
            let si = idx_of_id_from(b.accounts, sender_id, 0).unwrap();
            let ri = idx_of_number_from(b.accounts, intent.recipient, 0).unwrap();
            &&& b2.accounts.len() == b.accounts.len()
            &&& si != ri ==> b2.accounts[si].balance == b.accounts[si].balance - intent.amount
            &&& si != ri ==> b2.accounts[ri].balance == b.accounts[ri].balance + intent.amount
            &&& si == ri ==> b2.accounts[si].balance == b.accounts[si].balance
            &&& forall|k: int|
                0 <= k < b.accounts.len() && k != si && k != ri ==> #[trigger] b2.accounts[k]
                    == b.accounts[k]
        }),
{
    lemma_idx_of_id_from(b.accounts, sender_id, 0);
    lemma_idx_of_number_from(b.accounts, intent.recipient, 0);
}

/// Law: no mutation on rejection. Whenever the transition rejects the
/// transfer — validation failure, business-rule failure, or storage
/// overflow — the store it leaves behind, accounts and ledger both, is
/// exactly the store it was given.
pub proof fn lemma_rejection_leaves_state(b: BankV, sender_id: u64, intent: IntentV, now: i64)
    requires
        spec_execute(b, sender_id, intent, now).0 is Err,
    ensures
        spec_execute(b, sender_id, intent, now).1 == b,
{
}

/// The transfer transition for an authenticated caller's subject: the
/// subject must be the decimal text of the sender's account
/// identifier; one that is not reads as an unresolvable sender.
pub open spec fn spec_execute_for_subject(
    b: BankV,
    subject: Seq<char>,
    intent: IntentV,
    now: i64,
) -> (Result<ReceiptV, TransferError>, BankV) {
    match crate::money::spec_parse_u64(subject) {
        Some(id) => spec_execute(b, id as u64, intent, now),
        None => (Err(TransferError::AccountNotFound), b),
    }
}

impl Bank {
    /// Well-formedness of the store; established by [`Bank::new`] and
    /// preserved by every mutating operation.
    pub open spec fn wf(&self) -> bool {
        bank_wf(self@)
    }

    /// An empty store: no accounts, no ledger entries.
    pub fn new() -> (r: Bank)
        ensures
            r.wf(),
            r@.accounts.len() == 0,
            r@.ledger.len() == 0,
    {
        Bank { accounts: Vec::new(), ledger: Vec::new() }
    }

    fn find_by_id_from(&self, id: u64, i: usize) -> (r: Option<usize>)
        requires
            i <= self@.accounts.len(),
        ensures
            match r {
                Some(k) => idx_of_id_from(self@.accounts, id, i as int) == Some(k as int),
                None => idx_of_id_from(self@.accounts, id, i as int) is None,
            },
        decreases self@.accounts.len() - i,
    {
        if i >= self.accounts.len() {
            None
        } else if self.accounts[i].id == id {
            Some(i)
        } else {
            self.find_by_id_from(id, i + 1)
        }
    }

    fn find_by_number_from(&self, number: &String, i: usize) -> (r: Option<usize>)
        requires
            i <= self@.accounts.len(),
        ensures
            match r {
                Some(k) => idx_of_number_from(self@.accounts, number@, i as int) == Some(k as int),
                None => idx_of_number_from(self@.accounts, number@, i as int) is None,
            },
        decreases self@.accounts.len() - i,
    {
        if i >= self.accounts.len() {
            None
        } else if self.accounts[i].number == *number {
            Some(i)
        } else {
            self.find_by_number_from(number, i + 1)
        }
    }

    /// Adds an account with a fresh identifier, a fresh account
    /// number, and a nonnegative opening balance. Returns whether the
    /// account was added; a store with the identifier or the number
    /// already taken, or a negative opening balance, is left unchanged.
    pub fn open_account(&mut self, id: u64, number: String, balance: i64) -> (r: bool)
        requires
            old(self).wf(),
        ensures
            final(self).wf(),
            r == spec_can_open(old(self)@, id, number@, balance as int),
            r ==> final(self)@ =~~= (BankV {
                accounts: old(self)@.accounts.push(
                    AccountV { id, number: number@, balance: balance as int },
                ),
                ledger: old(self)@.ledger,
            }),
            !r ==> final(self)@ =~~= old(self)@,
    {
        let ghost b0 = self@;
        if balance < 0 {
            return false;
        }
        if self.find_by_id_from(id, 0).is_some() {
            return false;
        }
        if self.find_by_number_from(&number, 0).is_some() {
            return false;
        }
        proof {
            lemma_idx_of_id_from(b0.accounts, id, 0);
            lemma_idx_of_number_from(b0.accounts, number@, 0);
        }
        self.accounts.push(Account { id, number, balance });
        proof {
            assert(final(self)@.accounts =~~= b0.accounts.push(
                AccountV { id, number: final(self).accounts@[b0.accounts.len() as int].number@, balance: balance as int },
            ));
        }
        true
    }

    /// The account number and current balance of the account with this
    /// identifier, or `None` when no account has it.
    pub fn balance_by_id(&self, id: u64) -> (r: Option<(String, i64)>)
        ensures
            match r {
                Some(p) => {
                    &&& idx_of_id_from(self@.accounts, id, 0) matches Some(k)
                    &&& self@.accounts[idx_of_id_from(self@.accounts, id, 0).unwrap()].number
                        == p.0@
                    &&& self@.accounts[idx_of_id_from(self@.accounts, id, 0).unwrap()].balance
                        == p.1 as int
                },
                None => idx_of_id_from(self@.accounts, id, 0) is None,
            },
    {
        proof {
            lemma_idx_of_id_from(self@.accounts, id, 0);
        }
        match self.find_by_id_from(id, 0) {
            Some(k) => Some((self.accounts[k].number.clone(), self.accounts[k].balance)),
            None => None,
        }
    }

    /// The transaction history of the account numbered `number`:
    /// newest first, at most `limit` records, exactly the ledger
    /// entries that name the account as payer or payee.
    pub fn transactions_by_account(&self, number: &String, limit: usize) -> (r: Vec<
        TransactionRecord,
    >)
        ensures
            r@.map_values(|t: TransactionRecord| t@) =~~= spec_query_from(
                self@.ledger,
                number@,
                self@.ledger.len() as int,
                limit as int,
            ),
    {
        let upto = self.ledger.len();
        self.query_from(number, upto, limit)
    }

    fn query_from(&self, number: &String, upto: usize, limit: usize) -> (r: Vec<TransactionRecord>)
        requires
            upto <= self@.ledger.len(),
        ensures
            r@.map_values(|t: TransactionRecord| t@) =~~= spec_query_from(
                self@.ledger,
                number@,
                upto as int,
                limit as int,
            ),
        decreases upto,
    {
        if upto == 0 || limit == 0 {
            Vec::new()
        } else {
            let rec = &self.ledger[upto - 1];
            if rec.from_account == *number || rec.to_account == *number {
                let mut out: Vec<TransactionRecord> = Vec::new();
                out.push(rec.duplicate());
                let mut rest = self.query_from(number, upto - 1, limit - 1);
                out.append(&mut rest);
                out
            } else {
                self.query_from(number, upto - 1, limit)
            }
        }
    }

    /// Executes one transfer for an authenticated caller: the subject
    /// an [`crate::auth::verify_token`] call yielded is read as the
    /// decimal account identifier and the transfer runs as
    /// [`spec_execute_for_subject`] describes. A subject that is not
    /// such an identifier fails like an unresolvable sender account —
    /// an infrastructure inconsistency, since the caller was validly
    /// authenticated.
    pub fn execute_for_subject(&mut self, subject: &str, intent: &TransferIntent, now: i64) -> (r:
        Result<TransferReceipt, TransferError>)
        requires
            old(self).wf(),
        ensures
            final(self).wf(),
            ({
                let so = spec_execute_for_subject(old(self)@, subject@, intent@, now);
                &&& final(self)@ =~~= so.1
                &&& (match r {
                    Ok(receipt) => so.0 == Ok::<ReceiptV, TransferError>(receipt@),
                    Err(e) => so.0 == Err::<ReceiptV, TransferError>(e),
                })
            }),
    {
        match crate::money::parse_u64(subject) {
            Some(id) => self.execute(id, intent, now),
            None => Err(TransferError::AccountNotFound),
        }
    }

    /// Executes one transfer from the account identified by
    /// `sender_id`, exactly as [`spec_execute`] describes: the checks
    /// run in order, a rejection leaves the store byte-for-byte
    /// unchanged, and a success moves `intent.amount` cents from the
    /// sender to the recipient and appends one completed record with
    /// timestamp `now`.
    pub fn execute(&mut self, sender_id: u64, intent: &TransferIntent, now: i64) -> (r: Result<
        TransferReceipt,
        TransferError,
    >)
        requires
            old(self).wf(),
        ensures
            final(self).wf(),
            ({
                let so = spec_execute(old(self)@, sender_id, intent@, now);
                &&& final(self)@ =~~= so.1
                &&& (match r {
                    Ok(receipt) => so.0 == Ok::<ReceiptV, TransferError>(receipt@),
                    Err(e) => so.0 == Err::<ReceiptV, TransferError>(e),
                })
            }),
    {
        let ghost b0 = self@;
        if intent.amount <= 0 {
            return Err(TransferError::InvalidAmount);
        }
        if intent.recipient.as_str().unicode_len() == 0 {
            return Err(TransferError::InvalidRecipient);
        }
        let si = match self.find_by_id_from(sender_id, 0) {
            Some(k) => k,
            None => {
                return Err(TransferError::AccountNotFound);
            },
        };
        proof {
            lemma_idx_of_id_from(b0.accounts, sender_id, 0);
        }
        if self.accounts[si].balance < intent.amount {
            return Err(TransferError::InsufficientFunds);
        }
        let ri = match self.find_by_number_from(&intent.recipient, 0) {
            Some(k) => k,
            None => {
                return Err(TransferError::RecipientNotFound);
            },
        };
        proof {
            lemma_idx_of_number_from(b0.accounts, intent.recipient@, 0);
        }
        if (si != ri && self.accounts[ri].balance > i64::MAX - intent.amount) || self.ledger.len()
            as u64 == u64::MAX {
            return Err(TransferError::StorageOverflow);
        }
        // Both rows are now held for the rest of the operation; the
        // writes below follow the canonical lock order.
        let sender_number = self.accounts[si].number.clone();
        let recipient_number = self.accounts[ri].number.clone();
        let sender_balance = self.accounts[si].balance;
        let recipient_balance = self.accounts[ri].balance;
        let new_sender_balance: i64 = if si == ri {
            sender_balance
        } else {
            sender_balance - intent.amount
        };
        let new_recipient_balance: i64 = if si == ri {
            recipient_balance
        } else {
            recipient_balance + intent.amount
        };
        let (first, _second) = lock_order(self.accounts[si].id, self.accounts[ri].id);
        if first == self.accounts[si].id {
            self.accounts.set(
                si,
                Account { id: self.accounts[si].id, number: sender_number.clone(), balance: new_sender_balance },
            );
            self.accounts.set(
                ri,
                Account {
                    id: self.accounts[ri].id,
                    number: recipient_number.clone(),
                    balance: new_recipient_balance,
                },
            );
        } else {
            self.accounts.set(
                ri,
                Account {
                    id: self.accounts[ri].id,
                    number: recipient_number.clone(),
                    balance: new_recipient_balance,
                },
            );
            self.accounts.set(
                si,
                Account { id: self.accounts[si].id, number: sender_number.clone(), balance: new_sender_balance },
            );
        }
        let tid = self.ledger.len() as u64;
        let description = match &intent.description {
            Some(d) => Some(d.clone()),
            None => None,
        };
        self.ledger.push(
            TransactionRecord {
                id: tid,
                from_account: sender_number.clone(),
                to_account: recipient_number.clone(),
                amount: intent.amount,
                description,
                status: TxStatus::Completed,
                created_at: now,
            },
        );
        proof {
            let so = spec_execute(b0, sender_id, intent@, now);
            assert(final(self)@.accounts =~~= so.1.accounts);
            assert(final(self)@.ledger =~~= so.1.ledger);
            lemma_execute_preserves_wf(b0, sender_id, intent@, now);
        }
        Ok(
            TransferReceipt {
                transaction_id: tid,
                from_account: sender_number,
                to_account: recipient_number,
                amount: intent.amount,
                new_sender_balance,
                timestamp: now,
            },
        )
    }
}

} // verus!
