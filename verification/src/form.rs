//! The cluster form: a transient eight-field wizard for adding, editing
//! or deleting a cluster entry. It exists only while the application is in
//! form mode; submitting or cancelling destroys it.

use vstd::prelude::*;
use vstd::string::StrSliceExecFns;
use vstd::string::StringExecFns;
use crate::commands::split_commas;
use crate::commands::split_commas_exec;
use crate::strutil::backspace;
use crate::strutil::push_char;
use crate::strutil::trim;
use crate::strutil::trim_spec;

verus! {

/// What submitting the form does to the registry.
#[derive(Debug, Clone, Copy, PartialEq, Eq, Structural)]
pub enum ClusterFormAction {
    Add,
    Edit,
    Delete,
}

/// How many labelled text fields the form has.
pub const FORM_FIELDS: usize = 8;

#[derive(Debug, Clone)]
pub struct ClusterFormState {
    pub action: ClusterFormAction,
    pub name: String,
    pub brokers: String,
    pub client_id: String,
    pub security_protocol: String,
    pub sasl_mechanism: String,
    pub sasl_username: String,
    pub sasl_password: String,
    pub ssl_ca_location: String,
    pub current_field: usize,
}

/// The text of field `i`, in cursor order.
pub open spec fn field_at(f: ClusterFormState, i: int) -> Seq<char> {
    if i == 0 {
        f.name@
    } else if i == 1 {
        f.brokers@
    } else if i == 2 {
        f.client_id@
    } else if i == 3 {
        f.security_protocol@
    } else if i == 4 {
        f.sasl_mechanism@
    } else if i == 5 {
        f.sasl_username@
    } else if i == 6 {
        f.sasl_password@
    } else {
        f.ssl_ca_location@
    }
}

impl ClusterFormState {
    /// The cursor always sits on one of the eight fields.
    pub open spec fn wf(&self) -> bool {
        self.current_field < FORM_FIELDS
    }

    /// A fresh form for the given action, optionally pre-populated with a
    /// cluster name (used when editing or deleting an existing entry).
    pub fn new(action: ClusterFormAction, name: Option<String>) -> (r: Self)
        ensures
            r.wf(),
            r.action == action,
            r.name@ == (match name {
                Some(n) => n@,
                None => Seq::<char>::empty(),
            }),
            r.brokers@ == Seq::<char>::empty(),
            r.client_id@ == Seq::<char>::empty(),
            r.security_protocol@ == Seq::<char>::empty(),
            r.sasl_mechanism@ == Seq::<char>::empty(),
            r.sasl_username@ == Seq::<char>::empty(),
            r.sasl_password@ == Seq::<char>::empty(),
            r.ssl_ca_location@ == Seq::<char>::empty(),
            r.current_field == 0,
    {
        ClusterFormState {
            action,
            name: match name {
                Some(n) => n,
                None => String::new(),
            },
            brokers: String::new(),
            client_id: String::new(),
            security_protocol: String::new(),
            sasl_mechanism: String::new(),
            sasl_username: String::new(),
            sasl_password: String::new(),
            ssl_ca_location: String::new(),
            current_field: 0,
        }
    }

    /// Moves the cursor to the next field, wrapping to the first.
    pub fn next_field(&mut self)
        requires
            old(self).wf(),
        ensures
            final(self).wf(),
            *final(self) == (ClusterFormState {
                current_field: ((old(self).current_field + 1) % 8) as usize,
                ..*old(self)
            }),
    {
        self.current_field = (self.current_field + 1) % 8;
    }

    /// Moves the cursor to the previous field, wrapping to the last.
    pub fn prev_field(&mut self)
        requires
            old(self).wf(),
        ensures
            final(self).wf(),
            *final(self) == (ClusterFormState {
                current_field: (if old(self).current_field == 0 {
                    7int
                } else {
                    old(self).current_field - 1
                }) as usize,
                ..*old(self)
            }),
    {
        if self.current_field == 0 {
            self.current_field = 7;
        } else {
            self.current_field = self.current_field - 1;
        }
    }

    /// Appends a character to the field under the cursor.
    pub fn add_char(&mut self, c: char)
        requires
            old(self).wf(),
        ensures
            final(self).wf(),
            final(self).action == old(self).action,
            final(self).current_field == old(self).current_field,
            forall|i: int|
                0 <= i < 8 ==> field_at(*final(self), i) == (if i
                    == old(self).current_field as int {
                    field_at(*old(self), i).push(c)
                } else {
                    field_at(*old(self), i)
                }),
    {
        if self.current_field == 0 {
            push_char(&mut self.name, c);
        } else if self.current_field == 1 {
            push_char(&mut self.brokers, c);
        } else if self.current_field == 2 {
            push_char(&mut self.client_id, c);
        } else if self.current_field == 3 {
            push_char(&mut self.security_protocol, c);
        } else if self.current_field == 4 {
            push_char(&mut self.sasl_mechanism, c);
        } else if self.current_field == 5 {
            push_char(&mut self.sasl_username, c);
        } else if self.current_field == 6 {
            push_char(&mut self.sasl_password, c);
        } else {
            push_char(&mut self.ssl_ca_location, c);
        }
    }

    /// Removes the last character of the field under the cursor; an empty
    /// field stays empty.
    pub fn backspace_field(&mut self)
        requires
            old(self).wf(),
        ensures
            final(self).wf(),
            final(self).action == old(self).action,
            final(self).current_field == old(self).current_field,
            forall|i: int|
                0 <= i < 8 ==> field_at(*final(self), i) == (if i
                    == old(self).current_field as int {
                    let f = field_at(*old(self), i);
                    if f.len() == 0 {
                        f
                    } else {
                        f.take(f.len() as int - 1)
                    }
                } else {
                    field_at(*old(self), i)
                }),
    {
        if self.current_field == 0 {
            self.name = backspace(self.name.as_str());
        } else if self.current_field == 1 {
            self.brokers = backspace(self.brokers.as_str());
        } else if self.current_field == 2 {
            self.client_id = backspace(self.client_id.as_str());
        } else if self.current_field == 3 {
            self.security_protocol = backspace(self.security_protocol.as_str());
        } else if self.current_field == 4 {
            self.sasl_mechanism = backspace(self.sasl_mechanism.as_str());
        } else if self.current_field == 5 {
            self.sasl_username = backspace(self.sasl_username.as_str());
        } else if self.current_field == 6 {
            self.sasl_password = backspace(self.sasl_password.as_str());
        } else {
            self.ssl_ca_location = backspace(self.ssl_ca_location.as_str());
        }
    }
}

/// The brokers a form submission yields: the comma-separated pieces,
/// each trimmed, with empty pieces discarded.
pub open spec fn split_trim_filter(s: Seq<char>) -> Seq<Seq<char>> {
    split_commas(s).map_values(|p: Seq<char>| trim_spec(p)).filter(|p: Seq<char>| p.len() > 0)
}

/// Splits a form's broker field on commas, trimming each piece and
/// dropping empty ones.
pub fn split_brokers_form(s: &str) -> (r: Vec<String>)
    ensures
        r.deep_view() == split_trim_filter(s@),
{
    let pieces = split_commas_exec(s);
    let ghost pv = pieces.deep_view();
    let mut out: Vec<String> = Vec::new();
    let mut i: usize = 0;
    while i < pieces.len()
        invariant
            pv == pieces.deep_view(),
            i <= pv.len(),
            out.deep_view() == pv.subrange(0, i as int).map_values(
                |p: Seq<char>| trim_spec(p),
            ).filter(|p: Seq<char>| p.len() > 0),
        decreases pv.len() - i,
    {
        let t = trim(pieces[i].as_str());
        proof {
            let mapped = pv.subrange(0, i + 1).map_values(|p: Seq<char>| trim_spec(p));
            let mapped_pre = pv.subrange(0, i as int).map_values(|p: Seq<char>| trim_spec(p));
            assert(pv.subrange(0, i + 1).drop_last() =~= pv.subrange(0, i as int));
            assert(mapped.drop_last() =~= mapped_pre);
            assert(mapped.last() == trim_spec(pv[i as int]));
            assert(mapped =~= mapped_pre.push(trim_spec(pv[i as int])));
            reveal(Seq::filter);
        }
        if t.unicode_len() > 0 {
            let ghost prev = out.deep_view();
            out.push(t);
            proof {
                assert(out.deep_view() =~= prev.push(trim_spec(pv[i as int])));
            }
        }
        i = i + 1;
    }
    proof {
        assert(pv.subrange(0, pv.len() as int) =~= pv);
    }
    out
}

} // verus!
