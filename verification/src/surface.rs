//! Lending out the draw surface.
//!
//! The surface lives in a slot. It is taken out of the slot for the time of a
//! draw and put back afterwards, so that it is never in two hands at once.

use vstd::prelude::*;
use crate::error::Error;
use crate::window::InputMode;
use crate::window::WindowState;

verus! {

/// A place that holds one value, or is empty while the value is lent out.
pub struct Slot<T> {
    held: Option<T>,
}

impl<T> Slot<T> {
    /// What the slot holds: `None` while the value is lent out.
    pub closed spec fn view(&self) -> Option<T> {
        self.held
    }

    /// A slot that holds `value`.
    pub fn new(value: T) -> (s: Self)
        ensures
            s@ == Some(value),
    {
        Slot { held: Some(value) }
    }

    /// Whether the value is lent out.
    pub fn is_checked_out(&self) -> (b: bool)
        ensures
            b == (self@ is None),
    {
        self.held.is_none()
    }

    /// Takes the value out of the slot.
    pub fn check_out(&mut self) -> (value: T)
        requires
            old(self)@ is Some,
        ensures
            old(self)@ == Some(value),
            final(self)@ is None,
    {
        self.held.take().unwrap()
    }

    /// Takes the value out of the slot if it is there.
    pub fn try_check_out(&mut self) -> (value: Option<T>)
        ensures
            value == old(self)@,
            final(self)@ is None,
    {
        self.held.take()
    }

    /// Puts the value back into the empty slot.
    pub fn check_in(&mut self, value: T)
        requires
            old(self)@ is None,
        ensures
            final(self)@ == Some(value),
    {
        self.held = Some(value);
    }
}

/// What a draw reports, given what its two steps returned. `presented` is
/// `None` where the upload failed, since nothing is presented then.
pub open spec fn draw_report(
    uploaded: Result<(), String>,
    presented: Option<Result<(), String>>,
) -> Result<(), Error> {
    match uploaded {
        Err(e) => Err(Error::Upload(e)),
        Ok(_) => match presented {
            Some(Err(e)) => Err(Error::Present(e)),
            _ => Ok(()),
        },
    }
}

/// The surface that frames are drawn to, of which there is one.
pub struct PresentationSurface<T> {
    slot: Slot<T>,
}

impl<T> PresentationSurface<T> {
    /// The surface, or `None` while a draw holds it.
    pub closed spec fn view(&self) -> Option<T> {
        self.slot@
    }

    /// A draw that began with `before` and ended with `after` in the slot
    /// reported `res`: `upload` was run on `before`; where it failed, what it
    /// gave back is `after`; where it succeeded, `present` was run on what it
    /// gave back, and what that gave back is `after`.
    pub open spec fn drew<U, P>(upload: U, present: P, before: T, after: T, res: Result<(), Error>) -> bool
        where
            U: FnOnce(T) -> (T, Result<(), String>),
            P: FnOnce(T) -> (T, Result<(), String>),
    {
        exists|a: T, uploaded: Result<(), String>| #[trigger]
            upload.ensures((before,), (a, uploaded)) && if uploaded is Err {
                after == a && res == draw_report(uploaded, None)
            } else {
                exists|b: T, presented: Result<(), String>| #[trigger]
                    present.ensures((a,), (b, presented)) && after == b && res == draw_report(
                        uploaded,
                        Some(presented),
                    )
            }
    }

    /// Stores `surface`.
    pub fn new(surface: T) -> (s: Self)
        ensures
            s@ == Some(surface),
    {
        PresentationSurface { slot: Slot::new(surface) }
    }

    /// Whether a draw holds the surface.
    pub fn is_checked_out(&self) -> (b: bool)
        ensures
            b == (self@ is None),
    {
        self.slot.is_checked_out()
    }

    /// Takes the surface out of its slot, for a draw that is made by hand.
    pub fn check_out(&mut self) -> (surface: T)
        requires
            old(self)@ is Some,
        ensures
            old(self)@ == Some(surface),
            final(self)@ is None,
    {
        self.slot.check_out()
    }

    /// Puts the surface back into its empty slot.
    pub fn check_in(&mut self, surface: T)
        requires
            old(self)@ is None,
        ensures
            final(self)@ == Some(surface),
    {
        self.slot.check_in(surface)
    }

    /// Draws one frame if the surface is in its slot, as `draw` does, and
    /// says so by `Some` with what the draw reported. A surface that is lent
    /// out shows that a draw began and never gave it back: then `None` comes
    /// back, neither step is run, and the slot stays empty.
    pub fn try_draw<U, P>(&mut self, upload: U, present: P) -> (res: Option<Result<(), Error>>)
        where
            U: FnOnce(T) -> (T, Result<(), String>),
            P: FnOnce(T) -> (T, Result<(), String>),
        requires
            old(self)@ is Some ==> upload.requires((old(self)@->0,)),
            old(self)@ is Some ==> forall|a: T, uploaded: Result<(), String>|
                upload.ensures((old(self)@->0,), (a, uploaded)) ==> present.requires((a,)),
        ensures
            old(self)@ is None ==> res is None && final(self)@ is None,
            old(self)@ is Some ==> res is Some && final(self)@ is Some && Self::drew(
                upload,
                present,
                old(self)@->0,
                final(self)@->0,
                res->0,
            ),
    {
        if self.is_checked_out() {
            None
        } else {
            Some(self.draw(upload, present))
        }
    }

    /// Draws one frame. The surface is taken out of the slot and handed to
    /// `upload`; if that succeeds, what it gives back is handed to `present`.
    /// Whichever step fails, the surface that came back last is put into the
    /// slot again, and the error says which step it was.
    pub fn draw<U, P>(&mut self, upload: U, present: P) -> (res: Result<(), Error>)
        where
            U: FnOnce(T) -> (T, Result<(), String>),
            P: FnOnce(T) -> (T, Result<(), String>),
        requires
            old(self)@ is Some,
            upload.requires((old(self)@->0,)),
            forall|a: T, uploaded: Result<(), String>|
                upload.ensures((old(self)@->0,), (a, uploaded)) ==> present.requires((a,)),
        ensures
            final(self)@ is Some,
            Self::drew(upload, present, old(self)@->0, final(self)@->0, res),
    {
        let surface = self.slot.check_out();
        let ghost before = surface;
        let (surface, uploaded) = upload(surface);
        let ghost a = surface;
        assert(upload.ensures((before,), (a, uploaded)));
        match uploaded {
            Err(e) => {
                self.slot.check_in(surface);
                Err(Error::Upload(e))
            },
            Ok(done) => {
                let (surface, presented) = present(surface);
                let ghost b = surface;
                assert(present.ensures((a,), (b, presented)));
                self.slot.check_in(surface);
                match presented {
                    Err(e) => Err(Error::Present(e)),
                    Ok(shown) => Ok(()),
                }
            },
        }
    }
}

/// Draws one frame of the window. If a screenshot is pending, `screenshot`
/// is run first, with the flag that says whether it is lossless, and the
/// request is taken back whether or not a file was written. Then the frame is
/// drawn to the surface, as `PresentationSurface::draw` does.
pub fn draw_frame<T, S, U, P>(
    state: &mut WindowState,
    surface: &mut PresentationSurface<T>,
    screenshot: S,
    upload: U,
    present: P,
) -> (res: Result<(), Error>)
    where
        S: FnOnce(bool) -> (),
        U: FnOnce(T) -> (T, Result<(), String>),
        P: FnOnce(T) -> (T, Result<(), String>),
    requires
        old(surface)@ is Some,
        forall|lossless: bool| screenshot.requires((lossless,)),
        upload.requires((old(surface)@->0,)),
        forall|a: T, uploaded: Result<(), String>|
            upload.ensures((old(surface)@->0,), (a, uploaded)) ==> present.requires((a,)),
    ensures
        final(state).mode() == (InputMode { pending_screenshot: None, ..old(state).mode() }),
        final(state).same_clock(old(state)),
        old(state).mode().pending_screenshot matches Some(lossless) ==> screenshot.ensures(
            (lossless,),
            (),
        ),
        final(surface)@ is Some,
        PresentationSurface::<T>::drew(
            upload,
            present,
            old(surface)@->0,
            final(surface)@->0,
            res,
        ),
{
    if let Some(lossless) = state.take_screenshot() {
        screenshot(lossless);
    }
    surface.draw(upload, present)
}

/// Draws one frame of the window if the surface is in its slot, as
/// `draw_frame` does, and says so by `Some` with what the draw reported. With
/// the surface lent out `None` comes back and nothing is done: no
/// screenshot is taken, the request stays pending, and neither step is run.
pub fn try_draw_frame<T, S, U, P>(
    state: &mut WindowState,
    surface: &mut PresentationSurface<T>,
    screenshot: S,
    upload: U,
    present: P,
) -> (res: Option<Result<(), Error>>)
    where
        S: FnOnce(bool) -> (),
        U: FnOnce(T) -> (T, Result<(), String>),
        P: FnOnce(T) -> (T, Result<(), String>),
    requires
        forall|lossless: bool| screenshot.requires((lossless,)),
        old(surface)@ is Some ==> upload.requires((old(surface)@->0,)),
        old(surface)@ is Some ==> forall|a: T, uploaded: Result<(), String>|
            upload.ensures((old(surface)@->0,), (a, uploaded)) ==> present.requires((a,)),
    ensures
        old(surface)@ is None ==> res is None && final(surface)@ is None && *final(state) == *old(
            state,
        ),
        old(surface)@ is Some ==> {
            &&& res is Some
            &&& final(state).mode() == (InputMode {
                pending_screenshot: None,
                ..old(state).mode()
            })
            &&& final(state).same_clock(old(state))
            &&& old(state).mode().pending_screenshot matches Some(lossless)
                ==> screenshot.ensures((lossless,), ())
            &&& final(surface)@ is Some
            &&& PresentationSurface::<T>::drew(
                upload,
                present,
                old(surface)@->0,
                final(surface)@->0,
                res->0,
            )
        },
{
    if surface.is_checked_out() {
        None
    } else {
        Some(draw_frame(state, surface, screenshot, upload, present))
    }
}

} // verus!
