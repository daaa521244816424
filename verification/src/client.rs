//! The caller-side bridge state.
//!
//! Each caller that talks to the host runtime owns one [`JsBridge`]: the
//! callback identifier the host answers to, the last successfully decoded
//! reply, and the last decode failure.  The embedding stores this state in
//! its reactive containers; the logic of how a host-supplied value updates
//! it lives here.

use vstd::prelude::*;

use crate::codec;

verus! {

/// One caller's view of the conversation with the host runtime.
pub struct JsBridge {
    data: Option<String>,
    error: Option<String>,
    callback_id: String,
}

impl JsBridge {
    /// The last successfully decoded reply document, if any.
    pub closed spec fn data_view(&self) -> Option<Seq<char>> {
        self.data.deep_view()
    }

    /// The last decode failure, if any.
    pub closed spec fn error_view(&self) -> Option<Seq<char>> {
        self.error.deep_view()
    }

    /// The identifier the host runtime echoes back with replies.
    pub closed spec fn callback_id_view(&self) -> Seq<char> {
        self.callback_id@
    }

    /// A fresh bridge for `callback_id`: no reply and no error yet.
    pub fn new(callback_id: String) -> (b: JsBridge)
        ensures
            b.data_view() is None,
            b.error_view() is None,
            b.callback_id_view() == callback_id@,
    {
        JsBridge { data: None, error: None, callback_id }
    }

    /// The last decoded reply.
    pub fn get_data(&self) -> (d: Option<String>)
        ensures
            d.deep_view() == self.data_view(),
    {
        match &self.data {
            Some(s) => Some(s.clone()),
            None => None,
        }
    }

    /// The last decode failure.
    pub fn get_error(&self) -> (e: Option<String>)
        ensures
            e.deep_view() == self.error_view(),
    {
        match &self.error {
            Some(s) => Some(s.clone()),
            None => None,
        }
    }

    /// The callback identifier.
    pub fn callback_id(&self) -> (id: String)
        ensures
            id@ == self.callback_id_view(),
    {
        self.callback_id.clone()
    }

    /// Overwrites the stored reply; the error and the identifier stay.
    pub fn set_data(&mut self, data: Option<String>)
        ensures
            final(self).data_view() == data.deep_view(),
            final(self).error_view() == old(self).error_view(),
            final(self).callback_id_view() == old(self).callback_id_view(),
    {
        self.data = data;
    }

    /// Overwrites the stored error; the reply and the identifier stay.
    pub fn set_error(&mut self, error: Option<String>)
        ensures
            final(self).error_view() == error.deep_view(),
            final(self).data_view() == old(self).data_view(),
            final(self).callback_id_view() == old(self).callback_id_view(),
    {
        self.error = error;
    }

    /// Applies a value the host runtime handed back.  A decodable value —
    /// strictly structural or via the string fallback — becomes the new
    /// reply and clears any earlier error; an undecodable one leaves the
    /// reply alone and records the failure.  Nothing is ever thrown back
    /// at the host.
    pub fn receive_host_value(&mut self, raw: &str)
        ensures
            final(self).callback_id_view() == old(self).callback_id_view(),
            match codec::decode_spec(raw@) {
                Some(p) => final(self).data_view() == Some(p) && final(self).error_view() is None,
                None => final(self).data_view() == old(self).data_view() && final(self).error_view()
                    == Some(codec::decode_error_text(codec::decode_error_spec(raw@))),
            },
    {
        match codec::decode(raw) {
            Ok(p) => {
                self.data = Some(p);
                self.error = None;
            },
            Err(e) => {
                self.error = Some(e.describe());
            },
        }
    }

    /// The wire envelope that sends `payload` on this bridge's behalf.
    pub fn envelope_for(&self, payload: &str) -> (m: String)
        ensures
            m@ == codec::envelope_of(self.callback_id_view(), payload@),
    {
        codec::encode_envelope(self.callback_id.as_str(), payload)
    }
}

} // verus!
