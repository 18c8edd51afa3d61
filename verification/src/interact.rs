//! Pointer interaction with the decorations, and interactive moves,
//! resizes, and the window menu.
use vstd::prelude::*;

use crate::cursor::CursorIcon;
use crate::cursor::PointerEntry;
use crate::dpi::LogicalPosition;
use crate::frame::spec_edge_of_direction;
use crate::frame::Frame;
use crate::frame::FrameAction;
use crate::frame::FrameClick;
use crate::frame::PointerSpot;
use crate::frame::ResizeEdge;
use crate::requests::ExternalError;
use crate::requests::Request;
use crate::requests::WindowEvent;
use crate::window::ShellVariant;
use crate::window::TopLevelState;
use crate::window::WindowState;
use crate::ResizeDirection;

verus! {

/// The protocol request one frame action turns into; closing and moving go
/// other ways.
pub open spec fn spec_click_requests(action: FrameAction, serial: u32) -> Seq<Request> {
    match action {
        FrameAction::Minimize => seq![Request::SetMinimized],
        FrameAction::Maximize => seq![Request::SetMaximized],
        FrameAction::UnMaximize => seq![Request::UnsetMaximized],
        FrameAction::Close => Seq::<Request>::empty(),
        FrameAction::Move => Seq::<Request>::empty(),
        FrameAction::Resize(edge) => seq![Request::ResizeWithSerial { serial, edge }],
        FrameAction::ShowMenu(x, y) => seq![Request::ShowMenuWithSerial { serial, x, y }],
    }
}

impl WindowState {
    /// Handle a click on the decorations.  Returns nothing when no frame
    /// exists or the click lands nowhere; a close lands in the event sink
    /// rather than in a protocol request.
    pub fn frame_click(
        &mut self,
        click: FrameClick,
        pressed: bool,
        serial: u32,
        timestamp_ms: u64,
        events: &mut Vec<WindowEvent>,
        requests: &mut Vec<Request>,
    ) -> (r: Option<bool>)
        requires
            old(self).wf(),
        ensures
            final(self).wf(),
            !old(self).is_xdg() ==> {
                &&& *final(self) == *old(self)
                &&& final(events)@ == old(events)@
                &&& final(requests)@ == old(requests)@
                &&& r == Some(false)
            },
            old(self).is_xdg() && old(self).tl().frame is None ==> {
                &&& *final(self) == *old(self)
                &&& final(events)@ == old(events)@
                &&& final(requests)@ == old(requests)@
                &&& r is None
            },
            old(self).is_xdg() ==> (old(self).tl().frame matches Some(f) ==> {
                match f.spec_click_action(click, pressed) {
                    None => {
                        &&& *final(self) == *old(self)
                        &&& final(events)@ == old(events)@
                        &&& final(requests)@ == old(requests)@
                        &&& r is None
                    },
                    Some(action) => {
                        &&& *final(self) == (WindowState {
                            shell: ShellVariant::TopLevel(
                                (TopLevelState {
                                    pending_move: if action == FrameAction::Move {
                                        Some(serial)
                                    } else {
                                        old(self).tl().pending_move
                                    },
                                    ..old(self).tl()
                                }),
                            ),
                            ..*old(self)
                        })
                        &&& final(events)@ == old(events)@ + (if action == FrameAction::Close {
                            seq![WindowEvent::CloseRequested]
                        } else {
                            Seq::<WindowEvent>::empty()
                        })
                        &&& final(requests)@ == old(requests)@ + spec_click_requests(
                            action,
                            serial,
                        )
                        &&& r == Some(false)
                    },
                }
            }),
    {
        match &mut self.shell {
            ShellVariant::TopLevel(tl) => {
                let action = match &mut tl.frame {
                    Some(frame) => frame.on_click(timestamp_ms, click, pressed),
                    None => {
                        return None;
                    },
                };
                match action {
                    None => {
                        return None;
                    },
                    Some(FrameAction::Minimize) => requests.push(Request::SetMinimized),
                    Some(FrameAction::Maximize) => requests.push(Request::SetMaximized),
                    Some(FrameAction::UnMaximize) => requests.push(Request::UnsetMaximized),
                    Some(FrameAction::Close) => events.push(WindowEvent::CloseRequested),
                    Some(FrameAction::Move) => {
                        tl.pending_move = Some(serial);
                    },
                    Some(FrameAction::Resize(edge)) => {
                        requests.push(Request::ResizeWithSerial { serial, edge });
                    },
                    Some(FrameAction::ShowMenu(x, y)) => {
                        requests.push(Request::ShowMenuWithSerial { serial, x, y });
                    },
                }
            },
            ShellVariant::LayerOverlay(_) => {},
        }
        Some(false)
    }

    /// The pointer moved over the decorations: remember the spot, take a
    /// pending move when the cursor says the pointer is on the frame, and
    /// otherwise report which cursor to show.
    pub fn frame_point_moved(&mut self, timestamp_ms: u64, x: i32, y: i32, requests: &mut Vec<
        Request,
    >) -> (r: Option<CursorIcon>)
        requires
            old(self).wf(),
        ensures
            final(self).wf(),
            !old(self).is_xdg() ==> {
                &&& *final(self) == *old(self)
                &&& final(requests)@ == old(requests)@
                &&& r is None
            },
            old(self).is_xdg() && old(self).tl().frame is None ==> {
                &&& *final(self) == (WindowState {
                    shell: ShellVariant::TopLevel(
                        (TopLevelState { pending_move: None, ..old(self).tl() }),
                    ),
                    ..*old(self)
                })
                &&& final(requests)@ == old(requests)@
                &&& r is None
            },
            old(self).is_xdg() ==> (old(self).tl().frame matches Some(f) ==> {
                let cursor = match f.spec_hit(x as int, y as int) {
                    Some(part) => Some(Frame::spec_icon_for(part, f.resizable)),
                    None => None::<CursorIcon>,
                };
                let moves = cursor is Some && old(self).tl().pending_move is Some;
                &&& *final(self) == (WindowState {
                    shell: ShellVariant::TopLevel(
                        (TopLevelState {
                            pending_move: None,
                            frame: Some((Frame { pointer: Some(PointerSpot { x, y }), ..f })),
                            ..old(self).tl()
                        }),
                    ),
                    ..*old(self)
                })
                &&& final(requests)@ == old(requests)@ + (if moves {
                    seq![
                        Request::MoveWithSerial { serial: old(self).tl().pending_move->0 },
                    ]
                } else {
                    Seq::<Request>::empty()
                })
                &&& r == (if moves {
                    None::<CursorIcon>
                } else {
                    cursor
                })
            }),
    {
        match &mut self.shell {
            ShellVariant::TopLevel(tl) => {
                // Take the serial if we had any, so it does not stick
                // around.
                let serial = tl.pending_move;
                tl.pending_move = None;

                match &mut tl.frame {
                    Some(frame) => {
                        let cursor = frame.click_point_moved(timestamp_ms, x, y);
                        // A cursor change means the pointer is over the
                        // decorations, so try to apply the pending move.
                        match (cursor, serial) {
                            (Some(_), Some(serial)) => {
                                requests.push(Request::MoveWithSerial { serial });
                                None
                            },
                            _ => cursor,
                        }
                    },
                    None => None,
                }
            },
            ShellVariant::LayerOverlay(_) => None,
        }
    }

    /// The pointer left the decorations.
    pub fn frame_point_left(&mut self)
        requires
            old(self).wf(),
        ensures
            final(self).wf(),
            old(self).is_xdg() ==> *final(self) == (WindowState {
                shell: ShellVariant::TopLevel(
                    (TopLevelState {
                        frame: match old(self).tl().frame {
                            Some(f) => Some((Frame { pointer: None, ..f })),
                            None => None::<Frame>,
                        },
                        ..old(self).tl()
                    }),
                ),
                ..*old(self)
            }),
            !old(self).is_xdg() ==> *final(self) == *old(self),
    {
        match &mut self.shell {
            ShellVariant::TopLevel(tl) => {
                match &mut tl.frame {
                    Some(frame) => frame.click_point_left(),
                    None => {},
                }
            },
            ShellVariant::LayerOverlay(_) => {},
        }
    }

    /// Start an interactive drag resize in the given direction, on behalf
    /// of every pointer; a layer overlay ignores it.
    pub fn drag_resize_window(&self, direction: ResizeDirection, requests: &mut Vec<Request>) -> (r:
        Result<(), ExternalError>)
        ensures
            r is Ok,
            self.is_xdg() ==> final(requests)@ == old(requests)@ + self.pointers@.map_values(
                |p: PointerEntry| Request::ResizeWithPointer {
                    pointer: p.id,
                    edge: spec_edge_of_direction(direction),
                },
            ),
            !self.is_xdg() ==> final(requests)@ == old(requests)@,
    {
        match &self.shell {
            ShellVariant::TopLevel(_) => {
                let edge: ResizeEdge = direction.into();
                proof {
                    assert(edge == spec_edge_of_direction(direction));
                }
                let ghost ptrs = self.pointers@;
                let n = self.pointers.len();
                let mut i: usize = 0;
                while i < n
                    invariant
                        i <= n,
                        n == ptrs.len(),
                        self.pointers@ == ptrs,
                        edge == spec_edge_of_direction(direction),
                        requests@ =~= old(requests)@ + ptrs.subrange(0, i as int).map_values(
                            |p: PointerEntry| Request::ResizeWithPointer { pointer: p.id, edge },
                        ),
                    decreases n - i,
                {
                    requests.push(
                        Request::ResizeWithPointer { pointer: self.pointers[i].id, edge },
                    );
                    i = i + 1;
                    proof {
                        assert(ptrs.subrange(0, i as int).map_values(
                            |p: PointerEntry| Request::ResizeWithPointer { pointer: p.id, edge },
                        ) =~= ptrs.subrange(0, i - 1).map_values(
                            |p: PointerEntry| Request::ResizeWithPointer { pointer: p.id, edge },
                        ).push(Request::ResizeWithPointer { pointer: ptrs[i - 1].id, edge }));
                    }
                }
                proof {
                    assert(ptrs.subrange(0, n as int) =~= ptrs);
                }
            },
            ShellVariant::LayerOverlay(_) => {},
        }
        Ok(())
    }

    /// Start an interactive window move on behalf of every pointer; a layer
    /// overlay ignores it.
    pub fn drag_window(&self, requests: &mut Vec<Request>) -> (r: Result<(), ExternalError>)
        ensures
            r is Ok,
            self.is_xdg() ==> final(requests)@ == old(requests)@ + self.pointers@.map_values(
                |p: PointerEntry| Request::MoveWithPointer { pointer: p.id },
            ),
            !self.is_xdg() ==> final(requests)@ == old(requests)@,
    {
        match &self.shell {
            ShellVariant::TopLevel(_) => {
                let ghost ptrs = self.pointers@;
                let n = self.pointers.len();
                let mut i: usize = 0;
                while i < n
                    invariant
                        i <= n,
                        n == ptrs.len(),
                        self.pointers@ == ptrs,
                        requests@ =~= old(requests)@ + ptrs.subrange(0, i as int).map_values(
                            |p: PointerEntry| Request::MoveWithPointer { pointer: p.id },
                        ),
                    decreases n - i,
                {
                    requests.push(Request::MoveWithPointer { pointer: self.pointers[i].id });
                    i = i + 1;
                    proof {
                        assert(ptrs.subrange(0, i as int).map_values(
                            |p: PointerEntry| Request::MoveWithPointer { pointer: p.id },
                        ) =~= ptrs.subrange(0, i - 1).map_values(
                            |p: PointerEntry| Request::MoveWithPointer { pointer: p.id },
                        ).push(Request::MoveWithPointer { pointer: ptrs[i - 1].id }));
                    }
                }
                proof {
                    assert(ptrs.subrange(0, n as int) =~= ptrs);
                }
            },
            ShellVariant::LayerOverlay(_) => {},
        }
        Ok(())
    }

    /// Show the window menu at the given position, on behalf of every
    /// pointer; a layer overlay ignores it.
    pub fn show_window_menu(&self, position: LogicalPosition, requests: &mut Vec<Request>)
        ensures
            self.is_xdg() ==> final(requests)@ == old(requests)@ + self.pointers@.map_values(
                |p: PointerEntry| Request::ShowMenuWithPointer {
                    pointer: p.id,
                    x: position.x,
                    y: position.y,
                },
            ),
            !self.is_xdg() ==> final(requests)@ == old(requests)@,
    {
        match &self.shell {
            ShellVariant::TopLevel(_) => {
                let x = position.x;
                let y = position.y;
                let ghost ptrs = self.pointers@;
                let n = self.pointers.len();
                let mut i: usize = 0;
                while i < n
                    invariant
                        i <= n,
                        n == ptrs.len(),
                        self.pointers@ == ptrs,
                        x == position.x && y == position.y,
                        requests@ =~= old(requests)@ + ptrs.subrange(0, i as int).map_values(
                            |p: PointerEntry| Request::ShowMenuWithPointer { pointer: p.id, x, y },
                        ),
                    decreases n - i,
                {
                    requests.push(
                        Request::ShowMenuWithPointer { pointer: self.pointers[i].id, x, y },
                    );
                    i = i + 1;
                    proof {
                        assert(ptrs.subrange(0, i as int).map_values(
                            |p: PointerEntry| Request::ShowMenuWithPointer { pointer: p.id, x, y },
                        ) =~= ptrs.subrange(0, i - 1).map_values(
                            |p: PointerEntry| Request::ShowMenuWithPointer { pointer: p.id, x, y },
                        ).push(Request::ShowMenuWithPointer { pointer: ptrs[i - 1].id, x, y }));
                    }
                }
                proof {
                    assert(ptrs.subrange(0, n as int) =~= ptrs);
                }
            },
            ShellVariant::LayerOverlay(_) => {},
        }
    }

    /// Refresh the decorations frame if it is present, returning whether
    /// the client should redraw.
    pub fn refresh_frame(&mut self) -> (r: bool)
        requires
            old(self).wf(),
        ensures
            final(self).wf(),
            ({
                let draws = old(self).is_xdg() && (old(self).tl().frame matches Some(f)
                    && !f.hidden && f.dirty);
                &&& r == draws
                &&& (draws ==> *final(self) == (WindowState {
                    shell: ShellVariant::TopLevel(
                        (TopLevelState {
                            frame: Some(
                                (Frame { dirty: false, ..old(self).tl().frame->0 }),
                            ),
                            ..old(self).tl()
                        }),
                    ),
                    ..*old(self)
                }))
                &&& (!draws ==> *final(self) == *old(self))
            }),
    {
        match &mut self.shell {
            ShellVariant::TopLevel(tl) => {
                match &mut tl.frame {
                    Some(frame) => {
                        if !frame.is_hidden() && frame.is_dirty() {
                            return frame.draw();
                        }
                    },
                    None => {},
                }
            },
            ShellVariant::LayerOverlay(_) => {},
        }
        false
    }
}

} // verus!
