//! The form of a submit-connection request: six required text fields.

use vstd::prelude::*;
use vstd::string::*;
use crate::config::{document, document_text};
use crate::http::{Failure, FailureView, STATUS_INTERNAL_SERVER_ERROR};

verus! {

/// The value of one form field, as far as the handlers read it.
#[derive(Debug, Clone, PartialEq, Eq)]
pub enum FieldValue {
    /// A value that reads as text.
    Text(String),
    /// A value of a type that does not read as text: a list, a nested form,
    /// an uploaded file.
    Other,
}

/// A [`FieldValue`] as contracts see it.
pub enum FieldValueView {
    Text(Seq<char>),
    Other,
}

impl View for FieldValue {
    type V = FieldValueView;

    open spec fn view(&self) -> FieldValueView {
        match *self {
            FieldValue::Text(text) => FieldValueView::Text(text@),
            FieldValue::Other => FieldValueView::Other,
        }
    }
}

/// One field of a form.
#[derive(Debug, Clone, PartialEq, Eq)]
pub struct FormField {
    pub name: String,
    pub value: FieldValue,
}

/// A [`FormField`] as contracts see it.
pub struct FormFieldView {
    pub name: Seq<char>,
    pub value: FieldValueView,
}

impl View for FormField {
    type V = FormFieldView;

    open spec fn view(&self) -> FormFieldView {
        FormFieldView { name: self.name@, value: self.value@ }
    }
}

impl DeepView for FormField {
    type V = FormFieldView;

    open spec fn deep_view(&self) -> FormFieldView {
        self@
    }
}

impl FormField {
    /// The field `name` with the text `value`.
    pub fn text(name: &str, value: &str) -> (field: FormField)
        ensures
            field@ == (FormFieldView { name: name@, value: FieldValueView::Text(value@) }),
    {
        FormField { name: String::from_str(name), value: FieldValue::Text(String::from_str(value)) }
    }

    /// The field `name` with a value that does not read as text.
    pub fn other(name: &str) -> (field: FormField)
        ensures
            field@ == (FormFieldView { name: name@, value: FieldValueView::Other }),
    {
        FormField { name: String::from_str(name), value: FieldValue::Other }
    }
}

/// The value of the first field of `form` that is called `name`.
pub open spec fn lookup(form: Seq<FormFieldView>, name: Seq<char>) -> Option<FieldValueView>
    decreases form.len(),
{
    if form.len() == 0 {
        None
    } else if form[0].name == name {
        Some(form[0].value)
    } else {
        lookup(form.drop_first(), name)
    }
}

/// The message for a field that the form lacks.
pub open spec fn not_found_message(name: Seq<char>) -> Seq<char> {
    "'"@ + name + "' not found in request params"@
}

/// The message for a field whose value does not read as text.
pub open spec fn unexpected_type_message(name: Seq<char>) -> Seq<char> {
    "Unexpected type for '"@ + name + "'"@
}

/// The text of the field `name` of `form`, or the failure that says what is
/// wrong with it. Such a failure is the client's mistake: it is answered
/// with status 500 and goes no further.
pub open spec fn param(form: Seq<FormFieldView>, name: Seq<char>) -> Result<Seq<char>, FailureView> {
    match lookup(form, name) {
        Some(FieldValueView::Text(text)) => Ok(text),
        Some(FieldValueView::Other) => Err(FailureView::internal(unexpected_type_message(name))),
        None => Err(FailureView::internal(not_found_message(name))),
    }
}

/// The value of the first field of `form` that is called `name`.
pub fn find<'a>(form: &'a Vec<FormField>, name: &str) -> (found: Option<&'a FieldValue>)
    ensures
        match found {
            Some(value) => lookup(form.deep_view(), name@) == Some(value@),
            None => lookup(form.deep_view(), name@) is None,
        },
{
    let key = String::from_str(name);
    let mut i: usize = 0;
    assert(form.deep_view().skip(0) =~= form.deep_view());
    while i < form.len()
        invariant
            i <= form.len(),
            key@ == name@,
            lookup(form.deep_view(), name@) == lookup(form.deep_view().skip(i as int), name@),
        decreases form.len() - i,
    {
        let ghost rest = form.deep_view().skip(i as int);
        assert(rest[0] == form[i as int]@);
        assert(rest.drop_first() =~= form.deep_view().skip(i + 1));
        if form[i].name == key {
            return Some(&form[i].value);
        }
        i += 1;
    }
    assert(form.deep_view().skip(i as int).len() == 0);
    None
}

/// The text of the field `name` of `form`.
pub fn get_param(form: &Vec<FormField>, name: &str) -> (value: Result<String, Failure>)
    ensures
        match value {
            Ok(text) => param(form.deep_view(), name@) == Ok::<Seq<char>, FailureView>(text@),
            Err(failure) => param(form.deep_view(), name@) == Err::<Seq<char>, FailureView>(
                failure@,
            ),
        },
{
    match find(form, name) {
        Some(FieldValue::Text(text)) => Ok(text.clone()),
        Some(FieldValue::Other) => {
            let mut message = String::from_str("Unexpected type for '");
            message.append(name);
            message.append("'");
            assert(message@ =~= unexpected_type_message(name@));
            Err(Failure::internal(message))
        },
        None => {
            let mut message = String::from_str("'");
            message.append(name);
            message.append("' not found in request params");
            assert(message@ =~= not_found_message(name@));
            Err(Failure::internal(message))
        },
    }
}

/// A submit-connection request whose form was complete: the network to
/// join, and the identity of the device towards its application.
#[derive(Debug, Clone, PartialEq, Eq)]
pub struct ConnectRequest {
    pub ssid: String,
    pub passphrase: String,
    pub api: String,
    pub ws: String,
    pub serial: String,
    pub secret: String,
}

/// A [`ConnectRequest`] as contracts see it.
pub struct ConnectRequestView {
    pub ssid: Seq<char>,
    pub passphrase: Seq<char>,
    pub api: Seq<char>,
    pub ws: Seq<char>,
    pub serial: Seq<char>,
    pub secret: Seq<char>,
}

impl View for ConnectRequest {
    type V = ConnectRequestView;

    open spec fn view(&self) -> ConnectRequestView {
        ConnectRequestView {
            ssid: self.ssid@,
            passphrase: self.passphrase@,
            api: self.api@,
            ws: self.ws@,
            serial: self.serial@,
            secret: self.secret@,
        }
    }
}

impl ConnectRequestView {
    /// The configuration document of the request.
    pub open spec fn document(self) -> Seq<char> {
        document_text(self.api, self.ws, self.serial, self.secret)
    }
}

impl ConnectRequest {
    /// The configuration document of the request. It has to be stored
    /// before the request's command is sent.
    pub fn document(&self) -> (text: String)
        ensures
            text@ == self@.document(),
    {
        document(self.api.as_str(), self.ws.as_str(), self.serial.as_str(), self.secret.as_str())
    }
}

/// The request that `form` carries: its fields `ssid`, `passphrase`, `API`,
/// `WS`, `serial` and `secret`, read in this order. The first of them that
/// is missing, or is no text, decides the failure.
pub open spec fn connect_request_of(form: Seq<FormFieldView>) -> Result<
    ConnectRequestView,
    FailureView,
> {
    match param(form, "ssid"@) {
        Err(failure) => Err(failure),
        Ok(ssid) => match param(form, "passphrase"@) {
            Err(failure) => Err(failure),
            Ok(passphrase) => match param(form, "API"@) {
                Err(failure) => Err(failure),
                Ok(api) => match param(form, "WS"@) {
                    Err(failure) => Err(failure),
                    Ok(ws) => match param(form, "serial"@) {
                        Err(failure) => Err(failure),
                        Ok(serial) => match param(form, "secret"@) {
                            Err(failure) => Err(failure),
                            Ok(secret) => Ok(
                                ConnectRequestView { ssid, passphrase, api, ws, serial, secret },
                            ),
                        },
                    },
                },
            },
        },
    }
}

/// Reads the submit-connection request out of `form`. All six fields are
/// required and must be text; extra fields are ignored.
pub fn connect_request(form: &Vec<FormField>) -> (request: Result<ConnectRequest, Failure>)
    ensures
        match request {
            Ok(request) => connect_request_of(form.deep_view()) == Ok::<
                ConnectRequestView,
                FailureView,
            >(request@),
            Err(failure) => connect_request_of(form.deep_view()) == Err::<
                ConnectRequestView,
                FailureView,
            >(failure@),
        },
{
    let ssid = get_param(form, "ssid")?;
    let passphrase = get_param(form, "passphrase")?;
    let api = get_param(form, "API")?;
    let ws = get_param(form, "WS")?;
    let serial = get_param(form, "serial")?;
    let secret = get_param(form, "secret")?;
    Ok(ConnectRequest { ssid, passphrase, api, ws, serial, secret })
}

/// The names of the six required fields.
pub open spec fn is_required(name: Seq<char>) -> bool {
    ||| name == "ssid"@
    ||| name == "passphrase"@
    ||| name == "API"@
    ||| name == "WS"@
    ||| name == "serial"@
    ||| name == "secret"@
}

/// A form is accepted exactly if each of the six required fields is there
/// as text; the request then holds the six texts. A form that is refused is
/// refused with status 500.
pub proof fn lemma_complete_forms_are_accepted(form: Seq<FormFieldView>)
    ensures
        connect_request_of(form) is Ok <==> (forall|name: Seq<char>|
            is_required(name) ==> #[trigger] lookup(form, name) matches Some(
                FieldValueView::Text(_),
            )),
        connect_request_of(form) matches Ok(request) ==> {
            &&& lookup(form, "ssid"@) == Some(FieldValueView::Text(request.ssid))
            &&& lookup(form, "passphrase"@) == Some(FieldValueView::Text(request.passphrase))
            &&& lookup(form, "API"@) == Some(FieldValueView::Text(request.api))
            &&& lookup(form, "WS"@) == Some(FieldValueView::Text(request.ws))
            &&& lookup(form, "serial"@) == Some(FieldValueView::Text(request.serial))
            &&& lookup(form, "secret"@) == Some(FieldValueView::Text(request.secret))
        },
        connect_request_of(form) matches Err(failure) ==> failure.status
            == STATUS_INTERNAL_SERVER_ERROR,
{
    if connect_request_of(form) is Ok {
        assert forall|name: Seq<char>| is_required(name) implies #[trigger] lookup(
            form,
            name,
        ) matches Some(FieldValueView::Text(_)) by {}
    } else {
        if param(form, "ssid"@) is Err {
            assert(is_required("ssid"@));
        } else if param(form, "passphrase"@) is Err {
            assert(is_required("passphrase"@));
        } else if param(form, "API"@) is Err {
            assert(is_required("API"@));
        } else if param(form, "WS"@) is Err {
            assert(is_required("WS"@));
        } else if param(form, "serial"@) is Err {
            assert(is_required("serial"@));
        } else {
            assert(is_required("secret"@));
        }
    }
}

} // verus!
