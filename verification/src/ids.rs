//! Typed identifiers: a UUID behind a prefix that names its kind.
use vstd::prelude::*;

use crate::error::{CoreError, ErrorView};
use crate::text::{concat2, strip_prefix, without_prefix};

verus! {

/// `n` as a lower-case hexadecimal digit.
pub open spec fn hex_digit(n: nat) -> char {
    if n < 10 {
        (('0' as nat) + n) as char
    } else {
        (('a' as nat) + n - 10) as char
    }
}

/// 16 to the power of `k`.
pub open spec fn pow16(k: nat) -> nat
    decreases k,
{
    if k == 0 {
        1
    } else {
        16 * pow16((k - 1) as nat)
    }
}

/// The `k`-th hexadecimal digit of a UUID, counted from the most significant one.
pub open spec fn uuid_digit(uuid: u128, k: nat) -> char {
    hex_digit((uuid as nat / pow16((31 - k) as nat)) % 16)
}

/// The hyphenated form of a UUID: 8, 4, 4, 4 and 12 hexadecimal digits.
pub open spec fn uuid_text(uuid: u128) -> Seq<char> {
    Seq::new(
        36,
        |i: int|
            if i == 8 || i == 13 || i == 18 || i == 23 {
                '-'
            } else if i < 8 {
                uuid_digit(uuid, i as nat)
            } else if i < 13 {
                uuid_digit(uuid, (i - 1) as nat)
            } else if i < 18 {
                uuid_digit(uuid, (i - 2) as nat)
            } else if i < 23 {
                uuid_digit(uuid, (i - 3) as nat)
            } else {
                uuid_digit(uuid, (i - 4) as nat)
            },
    )
}

/// What reading a text as a UUID gives: the number, or the reason for refusing it.
pub uninterp spec fn uuid_parsed(s: Seq<char>) -> Result<u128, Seq<char>>;

/// Prints a UUID with `uuid::Uuid`'s `Display`: the hyphenated lower-case form.
/// Claimed besides: `uuid::Uuid::parse_str` reads that form back as the same UUID.
#[verifier::external_body]
pub(crate) fn print_uuid(uuid: u128) -> (r: String)
    ensures
        r@ == uuid_text(uuid),
        uuid_parsed(r@) is Ok && uuid_parsed(r@)->Ok_0 == uuid,
{
    uuid::Uuid::from_u128(uuid).to_string()
}

/// Reads a UUID with `uuid::Uuid::parse_str`. The result, and the message of the
/// error, depend on the text alone: `uuid_parsed` names them. Claimed besides: no text is
/// read as a UUID that is shorter than its thirty-two digits.
#[verifier::external_body]
pub(crate) fn parse_uuid(s: &str) -> (r: Result<u128, String>)
    ensures
        match uuid_parsed(s@) {
            Ok(uuid) => r is Ok && r->Ok_0 == uuid,
            Err(message) => r is Err && r->Err_0@ == message,
        },
        r is Ok ==> s@.len() >= 32,
{
    uuid::Uuid::parse_str(s).map(|u| u.as_u128()).map_err(|e| e.to_string())
}

/// An identifier of one kind of record.
pub trait TypedId: Sized + Copy {
    /// What stands before the UUID in the identifier's text.
    spec fn prefix() -> Seq<char>;

    spec fn of_uuid(uuid: u128) -> Self;

    spec fn uuid(self) -> u128;

    proof fn lemma_uuid_names_id(self)
        ensures
            Self::of_uuid(self.uuid()) == self,
    ;

    fn prefix_text() -> (r: &'static str)
        ensures
            r@ == Self::prefix(),
    ;

    fn from_uuid(uuid: u128) -> (r: Self)
        ensures
            r == Self::of_uuid(uuid),
    ;

    fn as_uuid(&self) -> (r: u128)
        ensures
            r == self.uuid(),
    ;
}

/// The text of an identifier.
pub open spec fn id_text<I: TypedId>(id: I) -> Seq<char> {
    I::prefix() + uuid_text(id.uuid())
}

spec fn digit_place(k: int) -> int {
    if k < 8 {
        k
    } else if k < 12 {
        k + 1
    } else if k < 16 {
        k + 2
    } else if k < 20 {
        k + 3
    } else {
        k + 4
    }
}

proof fn lemma_leading_digits(a: u128, b: u128, k: nat)
    requires
        uuid_text(a) == uuid_text(b),
        k <= 32,
    ensures
        a as nat / pow16((32 - k) as nat) == b as nat / pow16((32 - k) as nat),
    decreases k,
{
    lemma_pow16_positive((32 - k) as nat);
    if k == 0 {
        assert(pow16(32) == 0x1_0000_0000_0000_0000_0000_0000_0000_0000) by {
            reveal_with_fuel(pow16, 33);
        }
        vstd::arithmetic::div_mod::lemma_basic_div(a as int, pow16(32) as int);
        vstd::arithmetic::div_mod::lemma_basic_div(b as int, pow16(32) as int);
    } else {
        let j = (32 - k) as nat;
        let n = (k - 1) as nat;
        lemma_leading_digits(a, b, n);
        let p = pow16(j);
        let x = a as nat / p;
        let y = b as nat / p;
        assert(pow16((32 - n) as nat) == 16 * p);
        vstd::arithmetic::div_mod::lemma_div_denominator(a as int, p as int, 16);
        vstd::arithmetic::div_mod::lemma_div_denominator(b as int, p as int, 16);
        assert(p * 16 == 16 * p) by (nonlinear_arith);
        assert(x / 16 == y / 16);
        let d = digit_place(n as int);
        assert(uuid_text(a)[d] == uuid_digit(a, n));
        assert(uuid_text(b)[d] == uuid_digit(b, n));
        assert(hex_digit(x % 16) == hex_digit(y % 16));
        assert(x % 16 == y % 16);
    }
}

proof fn lemma_pow16_positive(k: nat)
    ensures
        pow16(k) > 0,
    decreases k,
{
    if k > 0 {
        lemma_pow16_positive((k - 1) as nat);
    }
}

/// Different identifiers have different texts.
pub proof fn lemma_id_text_is_unique<I: TypedId>(a: I, b: I)
    ensures
        id_text(a) == id_text(b) <==> a == b,
{
    if id_text(a) == id_text(b) {
        let n = I::prefix().len() as int;
        assert(uuid_text(a.uuid()) =~= id_text(a).skip(n));
        assert(uuid_text(b.uuid()) =~= id_text(b).skip(n));
        lemma_leading_digits(a.uuid(), b.uuid(), 32);
        assert(pow16(0) == 1);
        assert(a.uuid() as nat / pow16(0) == a.uuid() && b.uuid() as nat / pow16(0) == b.uuid());
        a.lemma_uuid_names_id();
        b.lemma_uuid_names_id();
    }
}

/// What reading a text as an identifier gives. The prefix may be missing.
pub open spec fn id_parsed<I: TypedId>(s: Seq<char>) -> Result<I, Seq<char>> {
    match uuid_parsed(without_prefix(s, I::prefix())) {
        Ok(uuid) => Ok(I::of_uuid(uuid)),
        Err(message) => Err(message),
    }
}

/// The text of an optional identifier.
pub open spec fn opt_id_text<I: TypedId>(id: Option<I>) -> Option<Seq<char>> {
    match id {
        Some(id) => Some(id_text(id)),
        None => None,
    }
}

/// Prints an identifier. The text reads back as the same identifier.
pub fn print_id<I: TypedId>(id: &I) -> (r: String)
    ensures
        r@ == id_text(*id),
        id_parsed::<I>(r@) == Ok::<I, Seq<char>>(*id),
{
    let uuid = print_uuid(id.as_uuid());
    proof {
        crate::text::lemma_without_prefix_undoes(I::prefix(), uuid@);
        id.lemma_uuid_names_id();
    }
    concat2(I::prefix_text(), uuid.as_str())
}

/// Prints an optional identifier.
pub fn print_opt_id<I: TypedId>(id: &Option<I>) -> (r: Option<String>)
    ensures
        crate::text::opt_text(r) == opt_id_text(*id),
        *id is Some ==> id_parsed::<I>(r->Some_0@) == Ok::<I, Seq<char>>(id->Some_0),
{
    match id {
        Some(id) => Some(print_id(id)),
        None => None,
    }
}

/// The error for a stored text that is no identifier of the wanted kind.
pub open spec fn stored_id_fault<I: TypedId>(s: Seq<char>, message: Seq<char>) -> Option<ErrorView> {
    match id_parsed::<I>(s) {
        Ok(_) => None,
        Err(_) => Some(ErrorView::Storage(message)),
    }
}

/// Reads an identifier; where the text is none, the error is the given one.
pub fn stored_id<I: TypedId>(s: &str, message: &str) -> (r: Result<I, CoreError>)
    ensures
        match stored_id_fault::<I>(s@, message@) {
            Some(e) => r is Err && r->Err_0@ == e,
            None => r is Ok && r->Ok_0 == id_value::<I>(s@),
        },
{
    match read_id::<I>(s) {
        Ok(id) => Ok(id),
        Err(_) => Err(CoreError::storage(message)),
    }
}

/// The error for an optional stored text that is no identifier of the wanted kind.
pub open spec fn opt_stored_id_fault<I: TypedId>(
    s: Option<String>,
    message: Seq<char>,
) -> Option<ErrorView> {
    match s {
        Some(s) => stored_id_fault::<I>(s@, message),
        None => None,
    }
}

/// Reads an optional identifier; where the text is none, the error is the given one.
pub fn stored_opt_id<I: TypedId>(s: &Option<String>, message: &str) -> (r: Result<
    Option<I>,
    CoreError,
>)
    ensures
        match opt_stored_id_fault::<I>(*s, message@) {
            Some(e) => r is Err && r->Err_0@ == e,
            None => r is Ok && r->Ok_0 == opt_id_value::<I>(*s),
        },
{
    match s {
        Some(s) => match stored_id::<I>(s.as_str(), message) {
            Ok(id) => Ok(Some(id)),
            Err(e) => Err(e),
        },
        None => Ok(None),
    }
}

/// Reads an identifier, giving the reader's message where the text is none.
pub fn read_id<I: TypedId>(s: &str) -> (r: Result<I, String>)
    ensures
        match id_parsed::<I>(s@) {
            Ok(id) => r == Ok::<I, String>(id),
            Err(message) => r is Err && r->Err_0@ == message,
        },
        r is Ok ==> s@.len() >= 32,
{
    match parse_uuid(strip_prefix(s, I::prefix_text())) {
        Ok(uuid) => Ok(I::from_uuid(uuid)),
        Err(message) => Err(message),
    }
}

/// Why a text is no identifier, as an error of the storage layer.
pub open spec fn id_fault<I: TypedId>(s: Seq<char>) -> Option<ErrorView> {
    match id_parsed::<I>(s) {
        Ok(_) => None,
        Err(message) => Some(ErrorView::Serde(message)),
    }
}

/// The identifier that a text names.
pub open spec fn id_value<I: TypedId>(s: Seq<char>) -> I {
    id_parsed::<I>(s)->Ok_0
}

/// Reads an identifier out of a column.
pub fn parse_id<I: TypedId>(s: &str) -> (r: Result<I, CoreError>)
    ensures
        match id_fault::<I>(s@) {
            Some(e) => r is Err && r->Err_0@ == e,
            None => r == Ok::<I, CoreError>(id_value::<I>(s@)),
        },
        r is Ok ==> s@.len() >= 32,
{
    match read_id::<I>(s) {
        Ok(id) => Ok(id),
        Err(message) => Err(CoreError::Serde(message)),
    }
}

/// Why an optional text is no optional identifier.
pub open spec fn opt_id_fault<I: TypedId>(s: Option<String>) -> Option<ErrorView> {
    match s {
        Some(s) => id_fault::<I>(s@),
        None => None,
    }
}

/// The identifier that an optional text names.
pub open spec fn opt_id_value<I: TypedId>(s: Option<String>) -> Option<I> {
    match s {
        Some(s) => Some(id_value::<I>(s@)),
        None => None,
    }
}

/// Reads an identifier out of a column that may be null.
pub fn parse_opt_id<I: TypedId>(s: &Option<String>) -> (r: Result<Option<I>, CoreError>)
    ensures
        match opt_id_fault::<I>(*s) {
            Some(e) => r is Err && r->Err_0@ == e,
            None => r == Ok::<Option<I>, CoreError>(opt_id_value::<I>(*s)),
        },
{
    match s {
        Some(s) => match parse_id::<I>(s.as_str()) {
            Ok(id) => Ok(Some(id)),
            Err(e) => Err(e),
        },
        None => Ok(None),
    }
}

/// Identifies a task.
#[derive(Clone, Copy, Debug, PartialEq, Eq, Structural)]
pub struct TaskId {
    pub uuid: u128,
}

impl TypedId for TaskId {
    open spec fn prefix() -> Seq<char> {
        "tsk_"@
    }

    open spec fn of_uuid(uuid: u128) -> Self {
        TaskId { uuid }
    }

    open spec fn uuid(self) -> u128 {
        self.uuid
    }

    proof fn lemma_uuid_names_id(self) {
    }

    fn prefix_text() -> (r: &'static str) {
        "tsk_"
    }

    fn from_uuid(uuid: u128) -> (r: Self) {
        TaskId { uuid }
    }

    fn as_uuid(&self) -> (r: u128) {
        self.uuid
    }
}

/// Identifies a project.
#[derive(Clone, Copy, Debug, PartialEq, Eq, Structural)]
pub struct ProjectId {
    pub uuid: u128,
}

impl TypedId for ProjectId {
    open spec fn prefix() -> Seq<char> {
        "prj_"@
    }

    open spec fn of_uuid(uuid: u128) -> Self {
        ProjectId { uuid }
    }

    open spec fn uuid(self) -> u128 {
        self.uuid
    }

    proof fn lemma_uuid_names_id(self) {
    }

    fn prefix_text() -> (r: &'static str) {
        "prj_"
    }

    fn from_uuid(uuid: u128) -> (r: Self) {
        ProjectId { uuid }
    }

    fn as_uuid(&self) -> (r: u128) {
        self.uuid
    }
}

/// Identifies a plan.
#[derive(Clone, Copy, Debug, PartialEq, Eq, Structural)]
pub struct PlanId {
    pub uuid: u128,
}

impl TypedId for PlanId {
    open spec fn prefix() -> Seq<char> {
        "pln_"@
    }

    open spec fn of_uuid(uuid: u128) -> Self {
        PlanId { uuid }
    }

    open spec fn uuid(self) -> u128 {
        self.uuid
    }

    proof fn lemma_uuid_names_id(self) {
    }

    fn prefix_text() -> (r: &'static str) {
        "pln_"
    }

    fn from_uuid(uuid: u128) -> (r: Self) {
        PlanId { uuid }
    }

    fn as_uuid(&self) -> (r: u128) {
        self.uuid
    }
}

/// Identifies a run.
#[derive(Clone, Copy, Debug, PartialEq, Eq, Structural)]
pub struct RunId {
    pub uuid: u128,
}

impl TypedId for RunId {
    open spec fn prefix() -> Seq<char> {
        "run_"@
    }

    open spec fn of_uuid(uuid: u128) -> Self {
        RunId { uuid }
    }

    open spec fn uuid(self) -> u128 {
        self.uuid
    }

    proof fn lemma_uuid_names_id(self) {
    }

    fn prefix_text() -> (r: &'static str) {
        "run_"
    }

    fn from_uuid(uuid: u128) -> (r: Self) {
        RunId { uuid }
    }

    fn as_uuid(&self) -> (r: u128) {
        self.uuid
    }
}

/// Identifies an agent.
#[derive(Clone, Copy, Debug, PartialEq, Eq, Structural)]
pub struct AgentId {
    pub uuid: u128,
}

impl TypedId for AgentId {
    open spec fn prefix() -> Seq<char> {
        "agt_"@
    }

    open spec fn of_uuid(uuid: u128) -> Self {
        AgentId { uuid }
    }

    open spec fn uuid(self) -> u128 {
        self.uuid
    }

    proof fn lemma_uuid_names_id(self) {
    }

    fn prefix_text() -> (r: &'static str) {
        "agt_"
    }

    fn from_uuid(uuid: u128) -> (r: Self) {
        AgentId { uuid }
    }

    fn as_uuid(&self) -> (r: u128) {
        self.uuid
    }
}

/// Identifies a document.
#[derive(Clone, Copy, Debug, PartialEq, Eq, Structural)]
pub struct DocumentId {
    pub uuid: u128,
}

impl TypedId for DocumentId {
    open spec fn prefix() -> Seq<char> {
        "doc_"@
    }

    open spec fn of_uuid(uuid: u128) -> Self {
        DocumentId { uuid }
    }

    open spec fn uuid(self) -> u128 {
        self.uuid
    }

    proof fn lemma_uuid_names_id(self) {
    }

    fn prefix_text() -> (r: &'static str) {
        "doc_"
    }

    fn from_uuid(uuid: u128) -> (r: Self) {
        DocumentId { uuid }
    }

    fn as_uuid(&self) -> (r: u128) {
        self.uuid
    }
}

/// Identifies an evidence record.
#[derive(Clone, Copy, Debug, PartialEq, Eq, Structural)]
pub struct EvidenceId {
    pub uuid: u128,
}

impl TypedId for EvidenceId {
    open spec fn prefix() -> Seq<char> {
        "evd_"@
    }

    open spec fn of_uuid(uuid: u128) -> Self {
        EvidenceId { uuid }
    }

    open spec fn uuid(self) -> u128 {
        self.uuid
    }

    proof fn lemma_uuid_names_id(self) {
    }

    fn prefix_text() -> (r: &'static str) {
        "evd_"
    }

    fn from_uuid(uuid: u128) -> (r: Self) {
        EvidenceId { uuid }
    }

    fn as_uuid(&self) -> (r: u128) {
        self.uuid
    }
}

/// Identifies a lifecycle rule.
#[derive(Clone, Copy, Debug, PartialEq, Eq, Structural)]
pub struct RuleId {
    pub uuid: u128,
}

impl TypedId for RuleId {
    open spec fn prefix() -> Seq<char> {
        "rul_"@
    }

    open spec fn of_uuid(uuid: u128) -> Self {
        RuleId { uuid }
    }

    open spec fn uuid(self) -> u128 {
        self.uuid
    }

    proof fn lemma_uuid_names_id(self) {
    }

    fn prefix_text() -> (r: &'static str) {
        "rul_"
    }

    fn from_uuid(uuid: u128) -> (r: Self) {
        RuleId { uuid }
    }

    fn as_uuid(&self) -> (r: u128) {
        self.uuid
    }
}

/// Identifies a handoff contract.
#[derive(Clone, Copy, Debug, PartialEq, Eq, Structural)]
pub struct HandoffId {
    pub uuid: u128,
}

impl TypedId for HandoffId {
    open spec fn prefix() -> Seq<char> {
        "hnd_"@
    }

    open spec fn of_uuid(uuid: u128) -> Self {
        HandoffId { uuid }
    }

    open spec fn uuid(self) -> u128 {
        self.uuid
    }

    proof fn lemma_uuid_names_id(self) {
    }

    fn prefix_text() -> (r: &'static str) {
        "hnd_"
    }

    fn from_uuid(uuid: u128) -> (r: Self) {
        HandoffId { uuid }
    }

    fn as_uuid(&self) -> (r: u128) {
        self.uuid
    }
}

/// Identifies a work unit.
#[derive(Clone, Copy, Debug, PartialEq, Eq, Structural)]
pub struct WorkUnitId {
    pub uuid: u128,
}

impl TypedId for WorkUnitId {
    open spec fn prefix() -> Seq<char> {
        "wun_"@
    }

    open spec fn of_uuid(uuid: u128) -> Self {
        WorkUnitId { uuid }
    }

    open spec fn uuid(self) -> u128 {
        self.uuid
    }

    proof fn lemma_uuid_names_id(self) {
    }

    fn prefix_text() -> (r: &'static str) {
        "wun_"
    }

    fn from_uuid(uuid: u128) -> (r: Self) {
        WorkUnitId { uuid }
    }

    fn as_uuid(&self) -> (r: u128) {
        self.uuid
    }
}

/// Identifies an event.
#[derive(Clone, Copy, Debug, PartialEq, Eq, Structural)]
pub struct EventId {
    pub uuid: u128,
}

impl TypedId for EventId {
    open spec fn prefix() -> Seq<char> {
        "evt_"@
    }

    open spec fn of_uuid(uuid: u128) -> Self {
        EventId { uuid }
    }

    open spec fn uuid(self) -> u128 {
        self.uuid
    }

    proof fn lemma_uuid_names_id(self) {
    }

    fn prefix_text() -> (r: &'static str) {
        "evt_"
    }

    fn from_uuid(uuid: u128) -> (r: Self) {
        EventId { uuid }
    }

    fn as_uuid(&self) -> (r: u128) {
        self.uuid
    }
}

/// Identifies a comment.
#[derive(Clone, Copy, Debug, PartialEq, Eq, Structural)]
pub struct CommentId {
    pub uuid: u128,
}

impl TypedId for CommentId {
    open spec fn prefix() -> Seq<char> {
        "cmt_"@
    }

    open spec fn of_uuid(uuid: u128) -> Self {
        CommentId { uuid }
    }

    open spec fn uuid(self) -> u128 {
        self.uuid
    }

    proof fn lemma_uuid_names_id(self) {
    }

    fn prefix_text() -> (r: &'static str) {
        "cmt_"
    }

    fn from_uuid(uuid: u128) -> (r: Self) {
        CommentId { uuid }
    }

    fn as_uuid(&self) -> (r: u128) {
        self.uuid
    }
}

/// Identifies a task relation.
#[derive(Clone, Copy, Debug, PartialEq, Eq, Structural)]
pub struct RelationId {
    pub uuid: u128,
}

impl TypedId for RelationId {
    open spec fn prefix() -> Seq<char> {
        "rel_"@
    }

    open spec fn of_uuid(uuid: u128) -> Self {
        RelationId { uuid }
    }

    open spec fn uuid(self) -> u128 {
        self.uuid
    }

    proof fn lemma_uuid_names_id(self) {
    }

    fn prefix_text() -> (r: &'static str) {
        "rel_"
    }

    fn from_uuid(uuid: u128) -> (r: Self) {
        RelationId { uuid }
    }

    fn as_uuid(&self) -> (r: u128) {
        self.uuid
    }
}

/// Identifies a run note.
#[derive(Clone, Copy, Debug, PartialEq, Eq, Structural)]
pub struct RunNoteId {
    pub uuid: u128,
}

impl TypedId for RunNoteId {
    open spec fn prefix() -> Seq<char> {
        "rnt_"@
    }

    open spec fn of_uuid(uuid: u128) -> Self {
        RunNoteId { uuid }
    }

    open spec fn uuid(self) -> u128 {
        self.uuid
    }

    proof fn lemma_uuid_names_id(self) {
    }

    fn prefix_text() -> (r: &'static str) {
        "rnt_"
    }

    fn from_uuid(uuid: u128) -> (r: Self) {
        RunNoteId { uuid }
    }

    fn as_uuid(&self) -> (r: u128) {
        self.uuid
    }
}

/// Identifies an agent session.
#[derive(Clone, Copy, Debug, PartialEq, Eq, Structural)]
pub struct AgentSessionId {
    pub uuid: u128,
}

impl TypedId for AgentSessionId {
    open spec fn prefix() -> Seq<char> {
        "ses_"@
    }

    open spec fn of_uuid(uuid: u128) -> Self {
        AgentSessionId { uuid }
    }

    open spec fn uuid(self) -> u128 {
        self.uuid
    }

    proof fn lemma_uuid_names_id(self) {
    }

    fn prefix_text() -> (r: &'static str) {
        "ses_"
    }

    fn from_uuid(uuid: u128) -> (r: Self) {
        AgentSessionId { uuid }
    }

    fn as_uuid(&self) -> (r: u128) {
        self.uuid
    }
}

/// Identifies a session artifact.
#[derive(Clone, Copy, Debug, PartialEq, Eq, Structural)]
pub struct SessionArtifactId {
    pub uuid: u128,
}

impl TypedId for SessionArtifactId {
    open spec fn prefix() -> Seq<char> {
        "sar_"@
    }

    open spec fn of_uuid(uuid: u128) -> Self {
        SessionArtifactId { uuid }
    }

    open spec fn uuid(self) -> u128 {
        self.uuid
    }

    proof fn lemma_uuid_names_id(self) {
    }

    fn prefix_text() -> (r: &'static str) {
        "sar_"
    }

    fn from_uuid(uuid: u128) -> (r: Self) {
        SessionArtifactId { uuid }
    }

    fn as_uuid(&self) -> (r: u128) {
        self.uuid
    }
}

/// Identifies a device.
#[derive(Clone, Copy, Debug, PartialEq, Eq, Structural)]
pub struct DeviceId {
    pub uuid: u128,
}

impl TypedId for DeviceId {
    open spec fn prefix() -> Seq<char> {
        "dev_"@
    }

    open spec fn of_uuid(uuid: u128) -> Self {
        DeviceId { uuid }
    }

    open spec fn uuid(self) -> u128 {
        self.uuid
    }

    proof fn lemma_uuid_names_id(self) {
    }

    fn prefix_text() -> (r: &'static str) {
        "dev_"
    }

    fn from_uuid(uuid: u128) -> (r: Self) {
        DeviceId { uuid }
    }

    fn as_uuid(&self) -> (r: u128) {
        self.uuid
    }
}

/// Identifies an artifact.
#[derive(Clone, Copy, Debug, PartialEq, Eq, Structural)]
pub struct ArtifactId {
    pub uuid: u128,
}

impl TypedId for ArtifactId {
    open spec fn prefix() -> Seq<char> {
        "art_"@
    }

    open spec fn of_uuid(uuid: u128) -> Self {
        ArtifactId { uuid }
    }

    open spec fn uuid(self) -> u128 {
        self.uuid
    }

    proof fn lemma_uuid_names_id(self) {
    }

    fn prefix_text() -> (r: &'static str) {
        "art_"
    }

    fn from_uuid(uuid: u128) -> (r: Self) {
        ArtifactId { uuid }
    }

    fn as_uuid(&self) -> (r: u128) {
        self.uuid
    }
}

/// Identifies an artifact relation.
#[derive(Clone, Copy, Debug, PartialEq, Eq, Structural)]
pub struct ArtifactRelationId {
    pub uuid: u128,
}

impl TypedId for ArtifactRelationId {
    open spec fn prefix() -> Seq<char> {
        "arl_"@
    }

    open spec fn of_uuid(uuid: u128) -> Self {
        ArtifactRelationId { uuid }
    }

    open spec fn uuid(self) -> u128 {
        self.uuid
    }

    proof fn lemma_uuid_names_id(self) {
    }

    fn prefix_text() -> (r: &'static str) {
        "arl_"
    }

    fn from_uuid(uuid: u128) -> (r: Self) {
        ArtifactRelationId { uuid }
    }

    fn as_uuid(&self) -> (r: u128) {
        self.uuid
    }
}

/// Identifies an activity row.
#[derive(Clone, Copy, Debug, PartialEq, Eq, Structural)]
pub struct ActivityId {
    pub uuid: u128,
}

impl TypedId for ActivityId {
    open spec fn prefix() -> Seq<char> {
        "act_"@
    }

    open spec fn of_uuid(uuid: u128) -> Self {
        ActivityId { uuid }
    }

    open spec fn uuid(self) -> u128 {
        self.uuid
    }

    proof fn lemma_uuid_names_id(self) {
    }

    fn prefix_text() -> (r: &'static str) {
        "act_"
    }

    fn from_uuid(uuid: u128) -> (r: Self) {
        ActivityId { uuid }
    }

    fn as_uuid(&self) -> (r: u128) {
        self.uuid
    }
}

/// Identifies an entity version.
#[derive(Clone, Copy, Debug, PartialEq, Eq, Structural)]
pub struct VersionId {
    pub uuid: u128,
}

impl TypedId for VersionId {
    open spec fn prefix() -> Seq<char> {
        "ver_"@
    }

    open spec fn of_uuid(uuid: u128) -> Self {
        VersionId { uuid }
    }

    open spec fn uuid(self) -> u128 {
        self.uuid
    }

    proof fn lemma_uuid_names_id(self) {
    }

    fn prefix_text() -> (r: &'static str) {
        "ver_"
    }

    fn from_uuid(uuid: u128) -> (r: Self) {
        VersionId { uuid }
    }

    fn as_uuid(&self) -> (r: u128) {
        self.uuid
    }
}

/// Identifies an agent claim.
#[derive(Clone, Copy, Debug, PartialEq, Eq, Structural)]
pub struct ClaimId {
    pub uuid: u128,
}

impl TypedId for ClaimId {
    open spec fn prefix() -> Seq<char> {
        "clm_"@
    }

    open spec fn of_uuid(uuid: u128) -> Self {
        ClaimId { uuid }
    }

    open spec fn uuid(self) -> u128 {
        self.uuid
    }

    proof fn lemma_uuid_names_id(self) {
    }

    fn prefix_text() -> (r: &'static str) {
        "clm_"
    }

    fn from_uuid(uuid: u128) -> (r: Self) {
        ClaimId { uuid }
    }

    fn as_uuid(&self) -> (r: u128) {
        self.uuid
    }
}

/// Identifies an audit finding.
#[derive(Clone, Copy, Debug, PartialEq, Eq, Structural)]
pub struct AuditFindingId {
    pub uuid: u128,
}

impl TypedId for AuditFindingId {
    open spec fn prefix() -> Seq<char> {
        "fnd_"@
    }

    open spec fn of_uuid(uuid: u128) -> Self {
        AuditFindingId { uuid }
    }

    open spec fn uuid(self) -> u128 {
        self.uuid
    }

    proof fn lemma_uuid_names_id(self) {
    }

    fn prefix_text() -> (r: &'static str) {
        "fnd_"
    }

    fn from_uuid(uuid: u128) -> (r: Self) {
        AuditFindingId { uuid }
    }

    fn as_uuid(&self) -> (r: u128) {
        self.uuid
    }
}

/// Identifies an access token.
#[derive(Clone, Copy, Debug, PartialEq, Eq, Structural)]
pub struct TokenId {
    pub uuid: u128,
}

impl TypedId for TokenId {
    open spec fn prefix() -> Seq<char> {
        "tok_"@
    }

    open spec fn of_uuid(uuid: u128) -> Self {
        TokenId { uuid }
    }

    open spec fn uuid(self) -> u128 {
        self.uuid
    }

    proof fn lemma_uuid_names_id(self) {
    }

    fn prefix_text() -> (r: &'static str) {
        "tok_"
    }

    fn from_uuid(uuid: u128) -> (r: Self) {
        TokenId { uuid }
    }

    fn as_uuid(&self) -> (r: u128) {
        self.uuid
    }
}

// ── laws ────────────────────────────────────────────────────────────────────

/// A text that is no identifier is reported, one that is one is not and stands for that
/// identifier; what is missing is no fault and stands for none.
pub proof fn lemma_identifier_is_read_from_its_text<I: TypedId>(
    s: Seq<char>,
    o: Option<String>,
    message: Seq<char>,
)
    ensures
        id_parsed::<I>(s) matches Ok(id) ==> id_fault::<I>(s) is None && id_value::<I>(s) == id
            && stored_id_fault::<I>(s, message) is None,
        id_parsed::<I>(s) matches Err(why) ==> id_fault::<I>(s) == Some(ErrorView::Serde(why))
            && stored_id_fault::<I>(s, message) == Some(ErrorView::Storage(message)),
        o is None ==> opt_id_fault::<I>(o) is None && opt_id_value::<I>(o) is None
            && opt_stored_id_fault::<I>(o, message) is None,
        o matches Some(text) ==> opt_id_fault::<I>(o) == id_fault::<I>(text@) && opt_id_value::<I>(
            o,
        ) == Some(id_value::<I>(text@)) && opt_stored_id_fault::<I>(o, message)
            == stored_id_fault::<I>(text@, message),
{
}

/// The text of an identifier says of what it is one: it begins with the letters of its kind,
/// and the UUID follows.
pub proof fn lemma_identifier_says_of_what_it_is(uuid: u128)
    ensures
        id_text(TaskId { uuid }) == "tsk_"@ + uuid_text(uuid),
        id_text(ProjectId { uuid }) == "prj_"@ + uuid_text(uuid),
        id_text(PlanId { uuid }) == "pln_"@ + uuid_text(uuid),
        id_text(RunId { uuid }) == "run_"@ + uuid_text(uuid),
        id_text(AgentId { uuid }) == "agt_"@ + uuid_text(uuid),
        id_text(DocumentId { uuid }) == "doc_"@ + uuid_text(uuid),
        id_text(EvidenceId { uuid }) == "evd_"@ + uuid_text(uuid),
        id_text(RuleId { uuid }) == "rul_"@ + uuid_text(uuid),
        id_text(HandoffId { uuid }) == "hnd_"@ + uuid_text(uuid),
        id_text(WorkUnitId { uuid }) == "wun_"@ + uuid_text(uuid),
        id_text(EventId { uuid }) == "evt_"@ + uuid_text(uuid),
        id_text(CommentId { uuid }) == "cmt_"@ + uuid_text(uuid),
        id_text(RelationId { uuid }) == "rel_"@ + uuid_text(uuid),
        id_text(RunNoteId { uuid }) == "rnt_"@ + uuid_text(uuid),
        id_text(AgentSessionId { uuid }) == "ses_"@ + uuid_text(uuid),
        id_text(SessionArtifactId { uuid }) == "sar_"@ + uuid_text(uuid),
        id_text(DeviceId { uuid }) == "dev_"@ + uuid_text(uuid),
        id_text(ArtifactId { uuid }) == "art_"@ + uuid_text(uuid),
        id_text(ArtifactRelationId { uuid }) == "arl_"@ + uuid_text(uuid),
        id_text(ActivityId { uuid }) == "act_"@ + uuid_text(uuid),
        id_text(VersionId { uuid }) == "ver_"@ + uuid_text(uuid),
        id_text(ClaimId { uuid }) == "clm_"@ + uuid_text(uuid),
        id_text(AuditFindingId { uuid }) == "fnd_"@ + uuid_text(uuid),
        id_text(TokenId { uuid }) == "tok_"@ + uuid_text(uuid),
{
}

} // verus!
