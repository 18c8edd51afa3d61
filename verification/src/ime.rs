//! Text-input (IME) association: hints fan out to every associated text
//! input, each followed by the protocol's explicit commit.
use vstd::prelude::*;

use crate::dpi::LogicalPosition;
use crate::dpi::LogicalSize;
use crate::requests::Request;
use crate::window::WindowState;
use crate::ImePurpose;

verus! {

/// What enabling or disabling the IME sends to one text input.
pub open spec fn spec_ime_allowed_requests_for(
    ti: u32,
    allowed: bool,
    purpose: ImePurpose,
) -> Seq<Request> {
    if allowed {
        seq![
            Request::TextInputEnable { text_input: ti },
            Request::TextInputSetContentType { text_input: ti, purpose },
            Request::TextInputCommit { text_input: ti },
        ]
    } else {
        seq![
            Request::TextInputDisable { text_input: ti },
            Request::TextInputCommit { text_input: ti },
        ]
    }
}

/// What enabling or disabling the IME sends to every text input, in
/// association order.
pub open spec fn spec_ime_allowed_requests(
    tis: Seq<u32>,
    allowed: bool,
    purpose: ImePurpose,
) -> Seq<Request>
    decreases tis.len(),
{
    if tis.len() == 0 {
        Seq::<Request>::empty()
    } else {
        spec_ime_allowed_requests(tis.drop_last(), allowed, purpose)
            + spec_ime_allowed_requests_for(tis.last(), allowed, purpose)
    }
}

/// What a purpose change sends to one text input.
pub open spec fn spec_ime_purpose_requests_for(ti: u32, purpose: ImePurpose) -> Seq<Request> {
    seq![
        Request::TextInputSetContentType { text_input: ti, purpose },
        Request::TextInputCommit { text_input: ti },
    ]
}

/// What a purpose change sends to every text input.
pub open spec fn spec_ime_purpose_requests(tis: Seq<u32>, purpose: ImePurpose) -> Seq<Request>
    decreases tis.len(),
{
    if tis.len() == 0 {
        Seq::<Request>::empty()
    } else {
        spec_ime_purpose_requests(tis.drop_last(), purpose) + spec_ime_purpose_requests_for(
            tis.last(),
            purpose,
        )
    }
}

/// What a cursor-rectangle change sends to one text input.
pub open spec fn spec_ime_area_requests_for(ti: u32, x: i32, y: i32, w: i32, h: i32) -> Seq<
    Request,
> {
    seq![
        Request::TextInputSetCursorRectangle {
            text_input: ti,
            x,
            y,
            rect_width: w,
            rect_height: h,
        },
        Request::TextInputCommit { text_input: ti },
    ]
}

/// What a cursor-rectangle change sends to every text input.
pub open spec fn spec_ime_area_requests(tis: Seq<u32>, x: i32, y: i32, w: i32, h: i32) -> Seq<
    Request,
>
    decreases tis.len(),
{
    if tis.len() == 0 {
        Seq::<Request>::empty()
    } else {
        spec_ime_area_requests(tis.drop_last(), x, y, w, h) + spec_ime_area_requests_for(
            tis.last(),
            x,
            y,
            w,
            h,
        )
    }
}

impl WindowState {
    /// Allow or forbid IME input on every associated text input.  Returns
    /// whether at least one text input was affected; `false` means none is
    /// associated yet.
    pub fn set_ime_allowed(&mut self, allowed: bool, requests: &mut Vec<Request>) -> (applied:
        bool)
        requires
            old(self).wf(),
        ensures
            final(self).wf(),
            *final(self) == (WindowState { ime_allowed: allowed, ..*old(self) }),
            final(requests)@ == old(requests)@ + spec_ime_allowed_requests(
                old(self).text_inputs@,
                allowed,
                old(self).ime_purpose,
            ),
            applied == (old(self).text_inputs@.len() > 0),
    {
        self.ime_allowed = allowed;

        let ghost tis = self.text_inputs@;
        let mut applied = false;
        let n = self.text_inputs.len();
        let mut i: usize = 0;
        while i < n
            invariant
                i <= n,
                n == tis.len(),
                self.text_inputs@ == tis,
                self.ime_purpose == old(self).ime_purpose,
                applied == (i > 0),
                requests@ =~= old(requests)@ + spec_ime_allowed_requests(
                    tis.subrange(0, i as int),
                    allowed,
                    old(self).ime_purpose,
                ),
            decreases n - i,
        {
            let ti = self.text_inputs[i];
            applied = true;
            if allowed {
                requests.push(Request::TextInputEnable { text_input: ti });
                requests.push(
                    Request::TextInputSetContentType { text_input: ti, purpose: self.ime_purpose },
                );
            } else {
                requests.push(Request::TextInputDisable { text_input: ti });
            }
            requests.push(Request::TextInputCommit { text_input: ti });
            i = i + 1;
            proof {
                let sub1 = tis.subrange(0, i as int);
                assert(sub1.drop_last() =~= tis.subrange(0, i - 1));
                assert(sub1.last() == tis[i - 1]);
                assert(requests@ =~= old(requests)@ + spec_ime_allowed_requests(
                    sub1,
                    allowed,
                    old(self).ime_purpose,
                ));
            }
        }
        proof {
            assert(tis.subrange(0, n as int) =~= tis);
        }
        applied
    }

    /// Move the IME cursor rectangle on every associated text input.
    pub fn set_ime_cursor_area(&self, position: LogicalPosition, size: LogicalSize, requests:
        &mut Vec<Request>)
        ensures
            final(requests)@ == old(requests)@ + spec_ime_area_requests(
                self.text_inputs@,
                position.x,
                position.y,
                size.width as i32,
                size.height as i32,
            ),
    {
        let x = position.x;
        let y = position.y;
        #[verifier::truncate]
        let width = size.width as i32;
        #[verifier::truncate]
        let height = size.height as i32;
        let ghost tis = self.text_inputs@;
        let n = self.text_inputs.len();
        let mut i: usize = 0;
        while i < n
            invariant
                i <= n,
                n == tis.len(),
                self.text_inputs@ == tis,
                requests@ =~= old(requests)@ + spec_ime_area_requests(
                    tis.subrange(0, i as int),
                    x,
                    y,
                    width,
                    height,
                ),
            decreases n - i,
        {
            let ti = self.text_inputs[i];
            requests.push(
                Request::TextInputSetCursorRectangle {
                    text_input: ti,
                    x,
                    y,
                    rect_width: width,
                    rect_height: height,
                },
            );
            requests.push(Request::TextInputCommit { text_input: ti });
            i = i + 1;
            proof {
                let sub1 = tis.subrange(0, i as int);
                assert(sub1.drop_last() =~= tis.subrange(0, i - 1));
                assert(sub1.last() == tis[i - 1]);
                assert(requests@ =~= old(requests)@ + spec_ime_area_requests(
                    sub1,
                    x,
                    y,
                    width,
                    height,
                ));
            }
        }
        proof {
            assert(tis.subrange(0, n as int) =~= tis);
        }
    }

    /// Set the IME purpose and push it to every associated text input.
    pub fn set_ime_purpose(&mut self, purpose: ImePurpose, requests: &mut Vec<Request>)
        requires
            old(self).wf(),
        ensures
            final(self).wf(),
            *final(self) == (WindowState { ime_purpose: purpose, ..*old(self) }),
            final(requests)@ == old(requests)@ + spec_ime_purpose_requests(
                old(self).text_inputs@,
                purpose,
            ),
    {
        self.ime_purpose = purpose;

        let ghost tis = self.text_inputs@;
        let n = self.text_inputs.len();
        let mut i: usize = 0;
        while i < n
            invariant
                i <= n,
                n == tis.len(),
                self.text_inputs@ == tis,
                requests@ =~= old(requests)@ + spec_ime_purpose_requests(
                    tis.subrange(0, i as int),
                    purpose,
                ),
            decreases n - i,
        {
            let ti = self.text_inputs[i];
            requests.push(Request::TextInputSetContentType { text_input: ti, purpose });
            requests.push(Request::TextInputCommit { text_input: ti });
            i = i + 1;
            proof {
                let sub1 = tis.subrange(0, i as int);
                assert(sub1.drop_last() =~= tis.subrange(0, i - 1));
                assert(sub1.last() == tis[i - 1]);
                assert(requests@ =~= old(requests)@ + spec_ime_purpose_requests(sub1, purpose));
            }
        }
        proof {
            assert(tis.subrange(0, n as int) =~= tis);
        }
    }
}

} // verus!
