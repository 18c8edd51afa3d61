//! Cursor selection, visibility, and pointer-grab reconciliation.
use vstd::prelude::*;

use crate::cursor::CursorGrabMode;
use crate::cursor::CursorIcon;
use crate::cursor::CustomCursor;
use crate::cursor::GrabState;
use crate::cursor::PointerEntry;
use crate::cursor::SelectedCursor;
use crate::requests::ExternalError;
use crate::requests::Request;
use crate::window::WindowState;

verus! {

/// The requests that release the given grab mode on every pointer, in
/// registration order.
pub open spec fn spec_release_requests(mode: CursorGrabMode, ptrs: Seq<PointerEntry>) -> Seq<
    Request,
> {
    match mode {
        CursorGrabMode::Free => Seq::<Request>::empty(),
        CursorGrabMode::Confined => ptrs.map_values(
            |p: PointerEntry| Request::UnconfinePointer { pointer: p.id },
        ),
        CursorGrabMode::Locked => ptrs.map_values(
            |p: PointerEntry| Request::UnlockPointer { pointer: p.id },
        ),
    }
}

/// The requests that apply the given grab mode on every pointer, in
/// registration order.
pub open spec fn spec_apply_grab_requests(mode: CursorGrabMode, ptrs: Seq<PointerEntry>) -> Seq<
    Request,
> {
    match mode {
        CursorGrabMode::Free => Seq::<Request>::empty(),
        CursorGrabMode::Confined => ptrs.map_values(
            |p: PointerEntry| Request::ConfinePointer { pointer: p.id },
        ),
        CursorGrabMode::Locked => ptrs.map_values(
            |p: PointerEntry| Request::LockPointer { pointer: p.id },
        ),
    }
}

/// The requests that show a named cursor on every pointer.
pub open spec fn spec_named_cursor_requests(icon: CursorIcon, ptrs: Seq<PointerEntry>) -> Seq<
    Request,
> {
    ptrs.map_values(|p: PointerEntry| Request::SetCursor { pointer: p.id, icon })
}

/// The requests that hide the cursor on every pointer.
pub open spec fn spec_hide_cursor_requests(ptrs: Seq<PointerEntry>) -> Seq<Request> {
    ptrs.map_values(|p: PointerEntry| Request::HideCursor { pointer: p.id })
}

/// The requests that attach the custom cursor to one pointer's cursor
/// surface: scale it, attach, damage (the buffer on new surfaces, the
/// surface with scale-divided size on old ones), commit, and point the
/// pointer at it with the scale-divided hotspot.
pub open spec fn spec_custom_cursor_requests_for(p: PointerEntry, c: CustomCursor) -> Seq<
    Request,
> {
    seq![
        Request::SetCursorSurfaceScale { pointer: p.id, cursor_scale: p.surface_scale },
        Request::AttachCursorBuffer { pointer: p.id },
        if p.surface_version >= 4 {
            Request::DamageCursorBuffer {
                pointer: p.id,
                buffer_width: c.width,
                buffer_height: c.height,
            }
        } else {
            Request::DamageCursorSurface {
                pointer: p.id,
                surface_width: (c.width as int / p.surface_scale as int) as i32,
                surface_height: (c.height as int / p.surface_scale as int) as i32,
            }
        },
        Request::CommitCursorSurface { pointer: p.id },
        Request::SetPointerCursorSurface {
            pointer: p.id,
            hotspot_x: (c.hotspot_x as int / p.surface_scale as int) as i32,
            hotspot_y: (c.hotspot_y as int / p.surface_scale as int) as i32,
        },
    ]
}

/// The requests that attach the custom cursor to every pointer, in
/// registration order.
pub open spec fn spec_custom_cursor_requests(ptrs: Seq<PointerEntry>, c: CustomCursor) -> Seq<
    Request,
>
    decreases ptrs.len(),
{
    if ptrs.len() == 0 {
        Seq::<Request>::empty()
    } else {
        spec_custom_cursor_requests(ptrs.drop_last(), c) + spec_custom_cursor_requests_for(
            ptrs.last(),
            c,
        )
    }
}

/// The requests that bring every pointer back in line with the selected
/// cursor and its visibility.
pub open spec fn spec_cursor_style_requests(
    selected: SelectedCursor,
    visible: bool,
    ptrs: Seq<PointerEntry>,
) -> Seq<Request> {
    if visible {
        match selected {
            SelectedCursor::Named(icon) => spec_named_cursor_requests(icon, ptrs),
            SelectedCursor::Custom(c) => spec_custom_cursor_requests(ptrs, c),
        }
    } else {
        spec_hide_cursor_requests(ptrs)
    }
}

/// Locking the pointer while a confinement is applied first releases the
/// confinement on every pointer, and only then locks every pointer: in the
/// requests that `set_cursor_grab` emits, all the unconfinements come
/// before all the locks.
pub proof fn lemma_lock_releases_confined_first(ptrs: Seq<PointerEntry>)
    ensures
        ({
            let delta = spec_release_requests(CursorGrabMode::Confined, ptrs)
                + spec_apply_grab_requests(CursorGrabMode::Locked, ptrs);
            &&& delta.len() == 2 * ptrs.len()
            &&& (forall|i: int|
                0 <= i < ptrs.len() ==> delta[i] == (Request::UnconfinePointer {
                    pointer: ptrs[i].id,
                }))
            &&& (forall|i: int|
                0 <= i < ptrs.len() ==> delta[ptrs.len() + i] == (Request::LockPointer {
                    pointer: ptrs[i].id,
                }))
        }),
{
}

impl WindowState {
    /// Set the grabbing state on the surface: release whatever mode was
    /// applied before, then apply the new one on every pointer.  Without a
    /// pointer-constraints service, asking for anything but a free pointer
    /// is not supported; asking for a free pointer always succeeds.
    pub(crate) fn set_cursor_grab_inner(&mut self, mode: CursorGrabMode, requests: &mut Vec<
        Request,
    >) -> (r: Result<(), ExternalError>)
        requires
            old(self).wf(),
        ensures
            final(self).wf(),
            !old(self).caps.pointer_constraints ==> {
                &&& *final(self) == *old(self)
                &&& final(requests)@ == old(requests)@
                &&& r == (if mode == CursorGrabMode::Free {
                    Ok::<(), ExternalError>(())
                } else {
                    Err::<(), ExternalError>(ExternalError::NotSupported)
                })
            },
            old(self).caps.pointer_constraints ==> {
                &&& *final(self) == (WindowState {
                    cursor_grab_mode: (GrabState {
                        current_grab_mode: mode,
                        ..old(self).cursor_grab_mode
                    }),
                    ..*old(self)
                })
                &&& final(requests)@ == old(requests)@ + spec_release_requests(
                    old(self).cursor_grab_mode.current_grab_mode,
                    old(self).pointers@,
                ) + spec_apply_grab_requests(mode, old(self).pointers@)
                &&& r is Ok
            },
    {
        if !self.caps.pointer_constraints {
            if mode == CursorGrabMode::Free {
                return Ok(());
            }
            return Err(ExternalError::NotSupported);
        }
        let old_mode = self.cursor_grab_mode.current_grab_mode;
        self.cursor_grab_mode.current_grab_mode = mode;

        // Release the previously applied constraint on every pointer.
        let ghost ptrs = self.pointers@;
        match old_mode {
            CursorGrabMode::Free => (),
            CursorGrabMode::Confined => {
                let n = self.pointers.len();
                let mut i: usize = 0;
                while i < n
                    invariant
                        i <= n,
                        n == ptrs.len(),
                        self.pointers@ == ptrs,
                        requests@ =~= old(requests)@ + ptrs.subrange(0, i as int).map_values(
                            |p: PointerEntry| Request::UnconfinePointer { pointer: p.id },
                        ),
                    decreases n - i,
                {
                    requests.push(Request::UnconfinePointer { pointer: self.pointers[i].id });
                    i = i + 1;
                    proof {
                        assert(ptrs.subrange(0, i as int).map_values(
                            |p: PointerEntry| Request::UnconfinePointer { pointer: p.id },
                        ) =~= ptrs.subrange(0, i - 1).map_values(
                            |p: PointerEntry| Request::UnconfinePointer { pointer: p.id },
                        ).push(Request::UnconfinePointer { pointer: ptrs[i - 1].id }));
                    }
                }
                proof {
                    assert(ptrs.subrange(0, n as int) =~= ptrs);
                }
            },
            CursorGrabMode::Locked => {
                let n = self.pointers.len();
                let mut i: usize = 0;
                while i < n
                    invariant
                        i <= n,
                        n == ptrs.len(),
                        self.pointers@ == ptrs,
                        requests@ =~= old(requests)@ + ptrs.subrange(0, i as int).map_values(
                            |p: PointerEntry| Request::UnlockPointer { pointer: p.id },
                        ),
                    decreases n - i,
                {
                    requests.push(Request::UnlockPointer { pointer: self.pointers[i].id });
                    i = i + 1;
                    proof {
                        assert(ptrs.subrange(0, i as int).map_values(
                            |p: PointerEntry| Request::UnlockPointer { pointer: p.id },
                        ) =~= ptrs.subrange(0, i - 1).map_values(
                            |p: PointerEntry| Request::UnlockPointer { pointer: p.id },
                        ).push(Request::UnlockPointer { pointer: ptrs[i - 1].id }));
                    }
                }
                proof {
                    assert(ptrs.subrange(0, n as int) =~= ptrs);
                }
            },
        }
        let ghost mid = requests@;

        // Apply the new constraint on every pointer.
        match mode {
            CursorGrabMode::Free => (),
            CursorGrabMode::Confined => {
                let n = self.pointers.len();
                let mut i: usize = 0;
                while i < n
                    invariant
                        i <= n,
                        n == ptrs.len(),
                        self.pointers@ == ptrs,
                        requests@ =~= mid + ptrs.subrange(0, i as int).map_values(
                            |p: PointerEntry| Request::ConfinePointer { pointer: p.id },
                        ),
                    decreases n - i,
                {
                    requests.push(Request::ConfinePointer { pointer: self.pointers[i].id });
                    i = i + 1;
                    proof {
                        assert(ptrs.subrange(0, i as int).map_values(
                            |p: PointerEntry| Request::ConfinePointer { pointer: p.id },
                        ) =~= ptrs.subrange(0, i - 1).map_values(
                            |p: PointerEntry| Request::ConfinePointer { pointer: p.id },
                        ).push(Request::ConfinePointer { pointer: ptrs[i - 1].id }));
                    }
                }
                proof {
                    assert(ptrs.subrange(0, n as int) =~= ptrs);
                }
            },
            CursorGrabMode::Locked => {
                let n = self.pointers.len();
                let mut i: usize = 0;
                while i < n
                    invariant
                        i <= n,
                        n == ptrs.len(),
                        self.pointers@ == ptrs,
                        requests@ =~= mid + ptrs.subrange(0, i as int).map_values(
                            |p: PointerEntry| Request::LockPointer { pointer: p.id },
                        ),
                    decreases n - i,
                {
                    requests.push(Request::LockPointer { pointer: self.pointers[i].id });
                    i = i + 1;
                    proof {
                        assert(ptrs.subrange(0, i as int).map_values(
                            |p: PointerEntry| Request::LockPointer { pointer: p.id },
                        ) =~= ptrs.subrange(0, i - 1).map_values(
                            |p: PointerEntry| Request::LockPointer { pointer: p.id },
                        ).push(Request::LockPointer { pointer: ptrs[i - 1].id }));
                    }
                }
                proof {
                    assert(ptrs.subrange(0, n as int) =~= ptrs);
                }
            },
        }
        proof {
            assert(requests@ =~= old(requests)@ + spec_release_requests(
                old(self).cursor_grab_mode.current_grab_mode,
                ptrs,
            ) + spec_apply_grab_requests(mode, ptrs));
        }
        Ok(())
    }

    /// Set the cursor grabbing state on the window: the requested mode is
    /// remembered even when applying it fails.
    pub fn set_cursor_grab(&mut self, mode: CursorGrabMode, requests: &mut Vec<Request>) -> (r:
        Result<(), ExternalError>)
        requires
            old(self).wf(),
        ensures
            final(self).wf(),
            final(self).cursor_grab_mode.user_grab_mode == mode,
            !old(self).caps.pointer_constraints ==> {
                &&& *final(self) == (WindowState {
                    cursor_grab_mode: (GrabState {
                        user_grab_mode: mode,
                        ..old(self).cursor_grab_mode
                    }),
                    ..*old(self)
                })
                &&& final(requests)@ == old(requests)@
                &&& r == (if mode == CursorGrabMode::Free {
                    Ok::<(), ExternalError>(())
                } else {
                    Err::<(), ExternalError>(ExternalError::NotSupported)
                })
            },
            old(self).caps.pointer_constraints ==> {
                &&& *final(self) == (WindowState {
                    cursor_grab_mode: (GrabState {
                        user_grab_mode: mode,
                        current_grab_mode: mode,
                    }),
                    ..*old(self)
                })
                &&& final(requests)@ == old(requests)@ + spec_release_requests(
                    old(self).cursor_grab_mode.current_grab_mode,
                    old(self).pointers@,
                ) + spec_apply_grab_requests(mode, old(self).pointers@)
                &&& r is Ok
            },
    {
        self.cursor_grab_mode.user_grab_mode = mode;
        self.set_cursor_grab_inner(mode, requests)
    }

    /// Set the position of the cursor: possible only with a
    /// pointer-constraints service, and only while the applied grab mode
    /// keeps the cursor locked.
    pub fn set_cursor_position(&self, x: i32, y: i32, requests: &mut Vec<Request>) -> (r: Result<
        (),
        ExternalError,
    >)
        ensures
            !self.caps.pointer_constraints ==> {
                &&& final(requests)@ == old(requests)@
                &&& r == Err::<(), ExternalError>(ExternalError::NotSupported)
            },
            self.caps.pointer_constraints && self.cursor_grab_mode.current_grab_mode
                != CursorGrabMode::Locked ==> {
                &&& final(requests)@ == old(requests)@
                &&& r == Err::<(), ExternalError>(ExternalError::InvalidState)
            },
            self.caps.pointer_constraints && self.cursor_grab_mode.current_grab_mode
                == CursorGrabMode::Locked ==> {
                &&& final(requests)@ == old(requests)@ + self.pointers@.map_values(
                    |p: PointerEntry| Request::SetLockedCursorPosition { pointer: p.id, x, y },
                )
                &&& r is Ok
            },
    {
        if !self.caps.pointer_constraints {
            return Err(ExternalError::NotSupported);
        }
        // The position can be set only for a locked cursor.
        if !matches!(self.cursor_grab_mode.current_grab_mode, CursorGrabMode::Locked) {
            return Err(ExternalError::InvalidState);
        }
        let ghost ptrs = self.pointers@;
        let n = self.pointers.len();
        let mut i: usize = 0;
        while i < n
            invariant
                i <= n,
                n == ptrs.len(),
                self.pointers@ == ptrs,
                requests@ =~= old(requests)@ + ptrs.subrange(0, i as int).map_values(
                    |p: PointerEntry| Request::SetLockedCursorPosition { pointer: p.id, x, y },
                ),
            decreases n - i,
        {
            requests.push(Request::SetLockedCursorPosition { pointer: self.pointers[i].id, x, y });
            i = i + 1;
            proof {
                assert(ptrs.subrange(0, i as int).map_values(
                    |p: PointerEntry| Request::SetLockedCursorPosition { pointer: p.id, x, y },
                ) =~= ptrs.subrange(0, i - 1).map_values(
                    |p: PointerEntry| Request::SetLockedCursorPosition { pointer: p.id, x, y },
                ).push(Request::SetLockedCursorPosition { pointer: ptrs[i - 1].id, x, y }));
            }
        }
        proof {
            assert(ptrs.subrange(0, n as int) =~= ptrs);
        }
        Ok(())
    }

    /// Select a named cursor icon and show it on every pointer, unless the
    /// cursor is hidden.
    pub fn set_cursor(&mut self, cursor_icon: CursorIcon, requests: &mut Vec<Request>)
        requires
            old(self).wf(),
        ensures
            final(self).wf(),
            *final(self) == (WindowState {
                selected_cursor: SelectedCursor::Named(cursor_icon),
                ..*old(self)
            }),
            final(requests)@ == old(requests)@ + (if old(self).cursor_visible {
                spec_named_cursor_requests(cursor_icon, old(self).pointers@)
            } else {
                Seq::<Request>::empty()
            }),
    {
        self.selected_cursor = SelectedCursor::Named(cursor_icon);
        if !self.cursor_visible {
            return ;
        }
        let ghost ptrs = self.pointers@;
        let n = self.pointers.len();
        let mut i: usize = 0;
        while i < n
            invariant
                i <= n,
                n == ptrs.len(),
                self.pointers@ == ptrs,
                requests@ =~= old(requests)@ + ptrs.subrange(0, i as int).map_values(
                    |p: PointerEntry| Request::SetCursor { pointer: p.id, icon: cursor_icon },
                ),
            decreases n - i,
        {
            requests.push(Request::SetCursor { pointer: self.pointers[i].id, icon: cursor_icon });
            i = i + 1;
            proof {
                assert(ptrs.subrange(0, i as int).map_values(
                    |p: PointerEntry| Request::SetCursor { pointer: p.id, icon: cursor_icon },
                ) =~= ptrs.subrange(0, i - 1).map_values(
                    |p: PointerEntry| Request::SetCursor { pointer: p.id, icon: cursor_icon },
                ).push(Request::SetCursor { pointer: ptrs[i - 1].id, icon: cursor_icon }));
            }
        }
        proof {
            assert(ptrs.subrange(0, n as int) =~= ptrs);
        }
    }

    /// Attach the selected custom cursor to every pointer's cursor surface.
    fn apply_custom_cursor(&self, cursor: &CustomCursor, requests: &mut Vec<Request>)
        requires
            self.wf(),
            cursor.wf(),
        ensures
            final(requests)@ == old(requests)@ + spec_custom_cursor_requests(
                self.pointers@,
                *cursor,
            ),
    {
        let ghost ptrs = self.pointers@;
        let n = self.pointers.len();
        let mut i: usize = 0;
        while i < n
            invariant
                i <= n,
                n == ptrs.len(),
                self.pointers@ == ptrs,
                self.wf(),
                cursor.wf(),
                requests@ =~= old(requests)@ + spec_custom_cursor_requests(
                    ptrs.subrange(0, i as int),
                    *cursor,
                ),
            decreases n - i,
        {
            let p = self.pointers[i];
            let scale = p.surface_scale;
            requests.push(Request::SetCursorSurfaceScale { pointer: p.id, cursor_scale: scale });
            requests.push(Request::AttachCursorBuffer { pointer: p.id });
            if p.surface_version >= 4 {
                requests.push(
                    Request::DamageCursorBuffer {
                        pointer: p.id,
                        buffer_width: cursor.width,
                        buffer_height: cursor.height,
                    },
                );
            } else {
                requests.push(
                    Request::DamageCursorSurface {
                        pointer: p.id,
                        surface_width: cursor.width / scale,
                        surface_height: cursor.height / scale,
                    },
                );
            }
            requests.push(Request::CommitCursorSurface { pointer: p.id });
            requests.push(
                Request::SetPointerCursorSurface {
                    pointer: p.id,
                    hotspot_x: cursor.hotspot_x / scale,
                    hotspot_y: cursor.hotspot_y / scale,
                },
            );
            i = i + 1;
            proof {
                let sub1 = ptrs.subrange(0, i as int);
                assert(sub1.drop_last() =~= ptrs.subrange(0, i - 1));
                assert(sub1.last() == ptrs[i - 1]);
                assert(spec_custom_cursor_requests(sub1, *cursor)
                    == spec_custom_cursor_requests(ptrs.subrange(0, i - 1), *cursor)
                    + spec_custom_cursor_requests_for(ptrs[i - 1], *cursor));
                assert(requests@ =~= old(requests)@ + spec_custom_cursor_requests(sub1, *cursor));
            }
        }
        proof {
            assert(ptrs.subrange(0, n as int) =~= ptrs);
        }
    }

    /// Select a custom cursor image and show it on every pointer, unless
    /// the cursor is hidden.
    pub fn set_custom_cursor(&mut self, cursor: CustomCursor, requests: &mut Vec<Request>)
        requires
            old(self).wf(),
            cursor.wf(),
        ensures
            final(self).wf(),
            *final(self) == (WindowState {
                selected_cursor: SelectedCursor::Custom(cursor),
                ..*old(self)
            }),
            final(requests)@ == old(requests)@ + (if old(self).cursor_visible {
                spec_custom_cursor_requests(old(self).pointers@, cursor)
            } else {
                Seq::<Request>::empty()
            }),
    {
        if self.cursor_visible {
            self.apply_custom_cursor(&cursor, requests);
        }
        self.selected_cursor = SelectedCursor::Custom(cursor);
    }

    /// Show or hide the cursor: hiding sets an empty cursor on every
    /// pointer, showing reapplies the selected one.
    pub fn set_cursor_visible(&mut self, cursor_visible: bool, requests: &mut Vec<Request>)
        requires
            old(self).wf(),
        ensures
            final(self).wf(),
            *final(self) == (WindowState { cursor_visible, ..*old(self) }),
            final(requests)@ == old(requests)@ + spec_cursor_style_requests(
                old(self).selected_cursor,
                cursor_visible,
                old(self).pointers@,
            ),
    {
        self.cursor_visible = cursor_visible;
        if self.cursor_visible {
            match self.selected_cursor {
                SelectedCursor::Named(icon) => {
                    self.set_cursor(icon, requests);
                },
                SelectedCursor::Custom(cursor) => {
                    self.apply_custom_cursor(&cursor, requests);
                },
            }
        } else {
            let ghost ptrs = self.pointers@;
            let n = self.pointers.len();
            let mut i: usize = 0;
            while i < n
                invariant
                    i <= n,
                    n == ptrs.len(),
                    self.pointers@ == ptrs,
                    requests@ =~= old(requests)@ + ptrs.subrange(0, i as int).map_values(
                        |p: PointerEntry| Request::HideCursor { pointer: p.id },
                    ),
                decreases n - i,
            {
                requests.push(Request::HideCursor { pointer: self.pointers[i].id });
                i = i + 1;
                proof {
                    assert(ptrs.subrange(0, i as int).map_values(
                        |p: PointerEntry| Request::HideCursor { pointer: p.id },
                    ) =~= ptrs.subrange(0, i - 1).map_values(
                        |p: PointerEntry| Request::HideCursor { pointer: p.id },
                    ).push(Request::HideCursor { pointer: ptrs[i - 1].id }));
                }
            }
            proof {
                assert(ptrs.subrange(0, n as int) =~= ptrs);
            }
        }
    }

    /// Reapply the selected cursor and its visibility on every pointer.
    pub fn reload_cursor_style(&mut self, requests: &mut Vec<Request>)
        requires
            old(self).wf(),
        ensures
            final(self).wf(),
            *final(self) == *old(self),
            final(requests)@ == old(requests)@ + spec_cursor_style_requests(
                old(self).selected_cursor,
                old(self).cursor_visible,
                old(self).pointers@,
            ),
    {
        if self.cursor_visible {
            match self.selected_cursor {
                SelectedCursor::Named(icon) => {
                    self.set_cursor(icon, requests);
                },
                SelectedCursor::Custom(cursor) => {
                    self.apply_custom_cursor(&cursor, requests);
                },
            }
        } else {
            self.set_cursor_visible(false, requests);
        }
    }

    /// Register a pointer on the window: restyle its cursor and reapply
    /// the user's grab mode on every pointer.
    pub fn pointer_entered(&mut self, added: PointerEntry, requests: &mut Vec<Request>)
        requires
            old(self).wf(),
            added.wf(),
        ensures
            final(self).wf(),
            final(self).pointers@ == old(self).pointers@.push(added),
            old(self).caps.pointer_constraints ==> {
                &&& *final(self) == (WindowState {
                    pointers: final(self).pointers,
                    cursor_grab_mode: (GrabState {
                        current_grab_mode: old(self).cursor_grab_mode.user_grab_mode,
                        ..old(self).cursor_grab_mode
                    }),
                    ..*old(self)
                })
                &&& final(requests)@ == old(requests)@ + spec_cursor_style_requests(
                    old(self).selected_cursor,
                    old(self).cursor_visible,
                    old(self).pointers@.push(added),
                ) + spec_release_requests(
                    old(self).cursor_grab_mode.current_grab_mode,
                    old(self).pointers@.push(added),
                ) + spec_apply_grab_requests(
                    old(self).cursor_grab_mode.user_grab_mode,
                    old(self).pointers@.push(added),
                )
            },
            !old(self).caps.pointer_constraints ==> {
                &&& *final(self) == (WindowState { pointers: final(self).pointers, ..*old(self) })
                &&& final(requests)@ == old(requests)@ + spec_cursor_style_requests(
                    old(self).selected_cursor,
                    old(self).cursor_visible,
                    old(self).pointers@.push(added),
                )
            },
    {
        self.pointers.push(added);
        self.reload_cursor_style(requests);
        let mode = self.cursor_grab_mode.user_grab_mode;
        let _ = self.set_cursor_grab_inner(mode, requests);
    }

    /// A pointer has left the window: drop its registry entry.
    pub fn pointer_left(&mut self, removed: u64)
        requires
            old(self).wf(),
        ensures
            final(self).wf(),
            *final(self) == (WindowState { pointers: final(self).pointers, ..*old(self) }),
            final(self).pointers@ == old(self).pointers@.filter(
                |p: PointerEntry| p.id != removed,
            ),
    {
        let ghost ptrs = self.pointers@;
        let mut new_pointers: Vec<PointerEntry> = Vec::new();
        let n = self.pointers.len();
        let mut i: usize = 0;
        while i < n
            invariant
                i <= n,
                n == ptrs.len(),
                self.pointers@ == ptrs,
                forall|j: int| 0 <= j < ptrs.len() ==> ptrs[j].wf(),
                forall|j: int| 0 <= j < new_pointers@.len() ==> new_pointers@[j].wf(),
                new_pointers@ =~= ptrs.subrange(0, i as int).filter(
                    |p: PointerEntry| p.id != removed,
                ),
            decreases n - i,
        {
            let p = self.pointers[i];
            if p.id != removed {
                new_pointers.push(p);
            }
            i = i + 1;
            proof {
                reveal(Seq::filter);
                let pred = |p: PointerEntry| p.id != removed;
                let sub1 = ptrs.subrange(0, i as int);
                assert(sub1.drop_last() =~= ptrs.subrange(0, i - 1));
                assert(sub1.last() == ptrs[i - 1]);
                assert(new_pointers@ =~= sub1.filter(pred));
            }
        }
        proof {
            assert(ptrs.subrange(0, n as int) =~= ptrs);
        }
        self.pointers = new_pointers;
    }
}

} // verus!
