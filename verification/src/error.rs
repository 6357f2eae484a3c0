//! Failures: of the outside world, of a job, and of a request.
use vstd::prelude::*;
use vstd::string::*;

verus! {

/// An error of the outside world, as its two renderings.
#[derive(Debug)]
pub struct Fault {
    /// What it shows to a user.
    pub display: String,
    /// What it shows to a programmer.
    pub debug: String,
}

/// The model of a [`Fault`].
pub struct FaultView {
    pub display: Seq<char>,
    pub debug: Seq<char>,
}

impl View for Fault {
    type V = FaultView;

    open spec fn view(&self) -> FaultView {
        FaultView { display: self.display@, debug: self.debug@ }
    }
}

/// An error on the way to the store or in it.
#[derive(Debug)]
pub enum StoreFault {
    /// The work did not get to the store, or did not come back.
    Interact(Fault),
    /// The store refused the work.
    Database(Fault),
}

/// The model of a [`StoreFault`].
pub enum StoreFaultView {
    Interact(FaultView),
    Database(FaultView),
}

impl View for StoreFault {
    type V = StoreFaultView;

    open spec fn view(&self) -> StoreFaultView {
        match self {
            StoreFault::Interact(fault) => StoreFaultView::Interact(fault@),
            StoreFault::Database(fault) => StoreFaultView::Database(fault@),
        }
    }
}

/// Why a job failed. The first three hold the programmer's rendering of the outside error.
#[derive(Debug)]
pub enum CustomErrors {
    Diesel(String),
    Deadpool(String),
    DeadpoolPool(String),
    Custom(String),
}

/// The model of [`CustomErrors`].
pub enum CustomErrorsView {
    Diesel(Seq<char>),
    Deadpool(Seq<char>),
    DeadpoolPool(Seq<char>),
    Custom(Seq<char>),
}

impl View for CustomErrors {
    type V = CustomErrorsView;

    open spec fn view(&self) -> CustomErrorsView {
        match self {
            CustomErrors::Diesel(text) => CustomErrorsView::Diesel(text@),
            CustomErrors::Deadpool(text) => CustomErrorsView::Deadpool(text@),
            CustomErrors::DeadpoolPool(text) => CustomErrorsView::DeadpoolPool(text@),
            CustomErrors::Custom(text) => CustomErrorsView::Custom(text@),
        }
    }
}

/// A string in double quotes with its special characters escaped, as `{:?}` renders it.
pub uninterp spec fn quoted_text(text: Seq<char>) -> Seq<char>;

/// Calls `<str as Debug>::fmt` through `format!`. Claimed of it: the rendering depends on the
/// string alone.
#[verifier::external_body]
fn quote(text: &str) -> (quoted: String)
    ensures
        quoted@ == quoted_text(text@),
{
    format!("{:?}", text)
}

/// `name(inner)`.
pub open spec fn variant_text(name: Seq<char>, inner: Seq<char>) -> Seq<char> {
    name + seq!['('] + inner + seq![')']
}

/// The rendering of an enum's variant with one field, from the field's own rendering.
pub fn render_variant(name: &str, inner: &str) -> (text: String)
    ensures
        text@ == variant_text(name@, inner@),
{
    let mut text = name.to_owned();
    text.append("(");
    text.append(inner);
    text.append(")");
    proof {
        reveal_strlit("(");
        reveal_strlit(")");
        assert("("@ =~= seq!['(']);
        assert(")"@ =~= seq![')']);
    }
    text
}

impl CustomErrorsView {
    /// The programmer's rendering of the error.
    pub open spec fn text(self) -> Seq<char> {
        match self {
            CustomErrorsView::Diesel(inner) => variant_text("Diesel"@, inner),
            CustomErrorsView::Deadpool(inner) => variant_text("Deadpool"@, inner),
            CustomErrorsView::DeadpoolPool(inner) => variant_text("DeadpoolPool"@, inner),
            CustomErrorsView::Custom(message) => variant_text("Custom"@, quoted_text(message)),
        }
    }

    /// What a job makes of a failure of the store.
    pub open spec fn of_store(fault: StoreFaultView) -> CustomErrorsView {
        match fault {
            StoreFaultView::Interact(fault) => CustomErrorsView::Deadpool(fault.debug),
            StoreFaultView::Database(fault) => CustomErrorsView::Diesel(fault.debug),
        }
    }
}

impl CustomErrors {
    /// The programmer's rendering of the error, which is what is stored and sent.
    pub fn describe(&self) -> (text: String)
        ensures
            text@ == self@.text(),
    {
        match self {
            CustomErrors::Diesel(inner) => render_variant("Diesel", inner.as_str()),
            CustomErrors::Deadpool(inner) => render_variant("Deadpool", inner.as_str()),
            CustomErrors::DeadpoolPool(inner) => render_variant("DeadpoolPool", inner.as_str()),
            CustomErrors::Custom(message) => {
                let inner = quote(message.as_str());
                render_variant("Custom", inner.as_str())
            },
        }
    }

    /// What a job makes of a failure of the store.
    pub fn of_store(fault: StoreFault) -> (error: CustomErrors)
        ensures
            error@ == CustomErrorsView::of_store(fault@),
            fault matches StoreFault::Interact(inner) ==> {
                error matches CustomErrors::Deadpool(text) && text@ == inner.debug@
            },
            fault matches StoreFault::Database(inner) ==> {
                error matches CustomErrors::Diesel(text) && text@ == inner.debug@
            },
    {
        match fault {
            StoreFault::Interact(fault) => CustomErrors::Deadpool(fault.debug),
            StoreFault::Database(fault) => CustomErrors::Diesel(fault.debug),
        }
    }
}

/// The refusal of a request: an HTTP status and the text of the body.
#[derive(Debug)]
pub struct Failure {
    pub status: u16,
    pub message: String,
}

/// The model of a [`Failure`].
pub struct FailureView {
    pub status: u16,
    pub message: Seq<char>,
}

impl View for Failure {
    type V = FailureView;

    open spec fn view(&self) -> FailureView {
        FailureView { status: self.status, message: self.message@ }
    }
}

pub const INTERNAL_SERVER_ERROR: u16 = 500;

pub const NOT_FOUND: u16 = 404;

impl FailureView {
    /// The answer to a failure of the outside world: its text, under status 500.
    pub open spec fn internal(message: Seq<char>) -> FailureView {
        FailureView { status: INTERNAL_SERVER_ERROR, message }
    }

    /// The answer to a failure of the store.
    pub open spec fn of_store(fault: StoreFaultView) -> FailureView {
        match fault {
            StoreFaultView::Interact(fault) => FailureView::internal(fault.display),
            StoreFaultView::Database(fault) => FailureView::internal(fault.display),
        }
    }
}

/// The answer to a failure of the outside world.
pub fn internal_error(fault: Fault) -> (failure: Failure)
    ensures
        failure@ == FailureView::internal(fault@.display),
        failure.status == 500,
        failure.message@ == fault.display@,
{
    Failure { status: INTERNAL_SERVER_ERROR, message: fault.display }
}

impl Failure {
    /// The answer to a failure of the store.
    pub fn of_store(fault: StoreFault) -> (failure: Failure)
        ensures
            failure@ == FailureView::of_store(fault@),
            failure.status == 500,
            failure.message@ == match fault {
                StoreFault::Interact(inner) => inner.display@,
                StoreFault::Database(inner) => inner.display@,
            },
    {
        match fault {
            StoreFault::Interact(fault) => internal_error(fault),
            StoreFault::Database(fault) => internal_error(fault),
        }
    }
}

/// How an error is rendered: the name of its kind, and in brackets what the outside error shows to
/// a programmer, or the quoted message where the library made the error up itself.
pub proof fn lemma_rendering_of_an_error(inner: Seq<char>)
    ensures
        CustomErrorsView::Diesel(inner).text() == "Diesel("@ + inner + ")"@,
        CustomErrorsView::Deadpool(inner).text() == "Deadpool("@ + inner + ")"@,
        CustomErrorsView::DeadpoolPool(inner).text() == "DeadpoolPool("@ + inner + ")"@,
        CustomErrorsView::Custom(inner).text() == "Custom("@ + quoted_text(inner) + ")"@,
{
    reveal_strlit("Diesel");
    reveal_strlit("Diesel(");
    reveal_strlit("Deadpool");
    reveal_strlit("Deadpool(");
    reveal_strlit("DeadpoolPool");
    reveal_strlit("DeadpoolPool(");
    reveal_strlit("Custom");
    reveal_strlit("Custom(");
    reveal_strlit(")");
    assert("Diesel("@ =~= "Diesel"@ + seq!['(']);
    assert("Deadpool("@ =~= "Deadpool"@ + seq!['(']);
    assert("DeadpoolPool("@ =~= "DeadpoolPool"@ + seq!['(']);
    assert("Custom("@ =~= "Custom"@ + seq!['(']);
    assert(")"@ =~= seq![')']);
}

/// A rendering has the name in front, the rendering of the field in brackets, and nothing else.
pub proof fn lemma_parts_of_a_rendering(name: Seq<char>, inner: Seq<char>)
    ensures
        variant_text(name, inner).len() == name.len() + inner.len() + 2,
        variant_text(name, inner).take(name.len() as int) == name,
        variant_text(name, inner)[name.len() as int] == '(',
        variant_text(name, inner).subrange(
            name.len() + 1int,
            name.len() + 1int + inner.len(),
        ) == inner,
        variant_text(name, inner).last() == ')',
{
    assert(variant_text(name, inner).take(name.len() as int) =~= name);
    assert(variant_text(name, inner).subrange(name.len() + 1int, name.len() + 1int + inner.len())
        =~= inner);
}

/// A failure of the store counts, for a job, as one of the pool's where the work did not get
/// through and as one of the database's where it was refused. A request is refused with status 500
/// either way. The job keeps what the error shows to a programmer, the client gets what it shows to
/// a user.
pub proof fn lemma_two_readings_of_a_fault(fault: FaultView, message: Seq<char>)
    ensures
        CustomErrorsView::of_store(StoreFaultView::Interact(fault)) == CustomErrorsView::Deadpool(
            fault.debug,
        ),
        CustomErrorsView::of_store(StoreFaultView::Database(fault)) == CustomErrorsView::Diesel(
            fault.debug,
        ),
        FailureView::of_store(StoreFaultView::Interact(fault)).status == 500,
        FailureView::of_store(StoreFaultView::Interact(fault)).message == fault.display,
        FailureView::of_store(StoreFaultView::Database(fault)).status == 500,
        FailureView::of_store(StoreFaultView::Database(fault)).message == fault.display,
        FailureView::internal(message).status == 500,
        FailureView::internal(message).message == message,
        NOT_FOUND == 404,
{
}

/// The models of faults, errors and refusals have the texts and the status of what they model.
pub proof fn lemma_models_of_failures(
    fault: Fault,
    store_fault: StoreFault,
    error: CustomErrors,
    failure: Failure,
)
    ensures
        fault@.display == fault.display@,
        fault@.debug == fault.debug@,
        store_fault@ == match store_fault {
            StoreFault::Interact(inner) => StoreFaultView::Interact(inner@),
            StoreFault::Database(inner) => StoreFaultView::Database(inner@),
        },
        error@ == match error {
            CustomErrors::Diesel(text) => CustomErrorsView::Diesel(text@),
            CustomErrors::Deadpool(text) => CustomErrorsView::Deadpool(text@),
            CustomErrors::DeadpoolPool(text) => CustomErrorsView::DeadpoolPool(text@),
            CustomErrors::Custom(text) => CustomErrorsView::Custom(text@),
        },
        failure@.status == failure.status,
        failure@.message == failure.message@,
{
}

} // verus!
