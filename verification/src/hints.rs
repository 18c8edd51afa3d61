//! Size hints, decoration toggles, theme, blur, scale, transparency and
//! the window title.
use vstd::prelude::*;

use vstd::utf8::encode_utf8;

use crate::configure::Configure;
use crate::configure::DecorationMode;
use crate::dpi::valid_scale;
use crate::dpi::LogicalSize;
use crate::frame::Frame;
use crate::frame::FrameKind;
use crate::frame::FrameMetrics;
use crate::requests::Request;
use crate::title::spec_truncate_title;
use crate::title::TITLE_MAX_BYTES;
use crate::window::spec_resize_requests;
use crate::window::spec_tl_after_resize;
use crate::window::ShellVariant;
use crate::window::TopLevelState;
use crate::window::WindowState;
use crate::window::MIN_WINDOW_HEIGHT;
use crate::window::MIN_WINDOW_WIDTH;
use crate::Theme;

verus! {

/// The minimum-size hint published for a requested minimum: clamped up to
/// the window's floor, with the decoration borders added on.
pub open spec fn spec_min_size_hint(size: Option<LogicalSize>, borders: FrameMetrics) -> LogicalSize {
    let s = match size {
        Some(s) => s,
        None => LogicalSize { width: MIN_WINDOW_WIDTH, height: MIN_WINDOW_HEIGHT },
    };
    let w = if s.width >= MIN_WINDOW_WIDTH {
        s.width
    } else {
        MIN_WINDOW_WIDTH
    };
    let h = if s.height >= MIN_WINDOW_HEIGHT {
        s.height
    } else {
        MIN_WINDOW_HEIGHT
    };
    LogicalSize {
        width: Frame::spec_add_axis(w, borders.left + borders.right),
        height: Frame::spec_add_axis(h, borders.top + borders.bottom),
    }
}

/// The maximum-size hint published for a requested maximum: the decoration
/// borders added on, or nothing at all.
pub open spec fn spec_max_size_hint(size: Option<LogicalSize>, borders: FrameMetrics) -> Option<
    LogicalSize,
> {
    match size {
        Some(s) => Some(
            LogicalSize {
                width: Frame::spec_add_axis(s.width, borders.left + borders.right),
                height: Frame::spec_add_axis(s.height, borders.top + borders.bottom),
            },
        ),
        None => None,
    }
}

/// The request that publishes a maximum-size hint, or withdraws it.
pub open spec fn spec_max_size_request(hint: Option<LogicalSize>) -> Request {
    match hint {
        Some(s) => Request::SetMaxSize { width: s.width, height: s.height },
        None => Request::UnsetMaxSize,
    }
}

/// The decoration-mode request a decorate toggle sends: disabling
/// decorations under a server-side mode asks for the client mode so the
/// frame can be hidden; enabling them asks for the server mode.
pub open spec fn spec_decoration_mode_request(
    last: Option<Configure>,
    decorate: bool,
) -> Seq<Request> {
    if (last matches Some(c) && c.decoration_mode == DecorationMode::Server) && !decorate {
        seq![Request::RequestDecorationMode { mode: DecorationMode::Client }]
    } else if decorate {
        seq![Request::RequestDecorationMode { mode: DecorationMode::Server }]
    } else {
        Seq::<Request>::empty()
    }
}

/// How a frame reacts to a theme change: a themed frame takes the new
/// theme and goes dirty, a fallback frame ignores it.
pub open spec fn spec_frame_retheme_ok(f0: Frame, theme: Option<Theme>, f1: Frame) -> bool {
    if f0.is_themed() {
        &&& f1 == (Frame { kind: f1.kind, dirty: true, ..f0 })
        &&& f1.kind == (FrameKind::Themed { theme, title: f1.kind->Themed_title })
        &&& f1.spec_title() == f0.spec_title()
    } else {
        f1 == f0
    }
}

/// How a frame reacts to a title change: a themed frame takes the new
/// title and goes dirty, a fallback frame ignores it.
pub open spec fn spec_frame_retitle_ok(f0: Frame, title: Seq<char>, f1: Frame) -> bool {
    if f0.is_themed() {
        &&& f1 == (Frame { kind: f1.kind, dirty: true, ..f0 })
        &&& f1.spec_title() == Some(title)
        &&& f1.kind->Themed_theme == f0.kind->Themed_theme
    } else {
        f1 == f0
    }
}

impl WindowState {
    /// Publish a minimum inner-size hint; a layer overlay ignores it.
    pub fn set_min_inner_size(&mut self, size: Option<LogicalSize>, requests: &mut Vec<Request>)
        requires
            old(self).wf(),
        ensures
            final(self).wf(),
            old(self).is_xdg() ==> {
                let hint = spec_min_size_hint(size, old(self).spec_borders());
                &&& *final(self) == (WindowState {
                    shell: ShellVariant::TopLevel(
                        (TopLevelState { min_inner_size: hint, ..old(self).tl() }),
                    ),
                    ..*old(self)
                })
                &&& final(requests)@ == old(requests)@ + seq![
                    Request::SetMinSize { width: hint.width, height: hint.height },
                ]
            },
            !old(self).is_xdg() ==> {
                &&& *final(self) == *old(self)
                &&& final(requests)@ == old(requests)@
            },
    {
        match &mut self.shell {
            ShellVariant::TopLevel(tl) => {
                // Ensure that the window keeps its minimum floor.
                let mut size = match size {
                    Some(s) => s,
                    None => LogicalSize { width: MIN_WINDOW_WIDTH, height: MIN_WINDOW_HEIGHT },
                };
                if size.width < MIN_WINDOW_WIDTH {
                    size.width = MIN_WINDOW_WIDTH;
                }
                if size.height < MIN_WINDOW_HEIGHT {
                    size.height = MIN_WINDOW_HEIGHT;
                }

                // Add the borders.
                let size = match &tl.frame {
                    Some(f) => {
                        let (w, h) = f.add_borders(size.width, size.height);
                        LogicalSize { width: w, height: h }
                    },
                    None => size,
                };

                tl.min_inner_size = size;
                requests.push(Request::SetMinSize { width: size.width, height: size.height });
                proof {
                    assert(requests@ =~= old(requests)@ + seq![
                        Request::SetMinSize { width: size.width, height: size.height },
                    ]);
                }
            },
            ShellVariant::LayerOverlay(_) => {},
        }
    }

    /// Publish a maximum inner-size hint, or withdraw it; a layer overlay
    /// ignores it.
    pub fn set_max_inner_size(&mut self, size: Option<LogicalSize>, requests: &mut Vec<Request>)
        requires
            old(self).wf(),
        ensures
            final(self).wf(),
            old(self).is_xdg() ==> {
                let hint = spec_max_size_hint(size, old(self).spec_borders());
                &&& *final(self) == (WindowState {
                    shell: ShellVariant::TopLevel(
                        (TopLevelState { max_inner_size: hint, ..old(self).tl() }),
                    ),
                    ..*old(self)
                })
                &&& final(requests)@ == old(requests)@ + seq![spec_max_size_request(hint)]
            },
            !old(self).is_xdg() ==> {
                &&& *final(self) == *old(self)
                &&& final(requests)@ == old(requests)@
            },
    {
        match &mut self.shell {
            ShellVariant::TopLevel(tl) => {
                let hint = match size {
                    Some(s) => {
                        let s = match &tl.frame {
                            Some(f) => {
                                let (w, h) = f.add_borders(s.width, s.height);
                                LogicalSize { width: w, height: h }
                            },
                            None => s,
                        };
                        Some(s)
                    },
                    None => None,
                };

                tl.max_inner_size = hint;
                match hint {
                    Some(s) => requests.push(
                        Request::SetMaxSize { width: s.width, height: s.height },
                    ),
                    None => requests.push(Request::UnsetMaxSize),
                }
                proof {
                    assert(hint == spec_max_size_hint(size, old(self).spec_borders()));
                    assert(requests@ =~= old(requests)@ + seq![spec_max_size_request(hint)]);
                }
            },
            ShellVariant::LayerOverlay(_) => {},
        }
    }

    /// Re-publish the stored minimum and maximum size hints.
    pub fn reload_min_max_hints(&mut self, requests: &mut Vec<Request>)
        requires
            old(self).wf(),
        ensures
            final(self).wf(),
            old(self).is_xdg() ==> {
                let borders = old(self).spec_borders();
                let minh = spec_min_size_hint(Some(old(self).tl().min_inner_size), borders);
                let maxh = spec_max_size_hint(old(self).tl().max_inner_size, borders);
                &&& *final(self) == (WindowState {
                    shell: ShellVariant::TopLevel(
                        (TopLevelState {
                            min_inner_size: minh,
                            max_inner_size: maxh,
                            ..old(self).tl()
                        }),
                    ),
                    ..*old(self)
                })
                &&& final(requests)@ == old(requests)@ + seq![
                    Request::SetMinSize { width: minh.width, height: minh.height },
                    spec_max_size_request(maxh),
                ]
            },
            !old(self).is_xdg() ==> {
                &&& *final(self) == *old(self)
                &&& final(requests)@ == old(requests)@
            },
    {
        let (min_size, max_size) = match &self.shell {
            ShellVariant::TopLevel(tl) => (Some(tl.min_inner_size), tl.max_inner_size),
            ShellVariant::LayerOverlay(_) => {
                return ;
            },
        };
        self.set_min_inner_size(min_size, requests);
        self.set_max_inner_size(max_size, requests);
        proof {
            assert(final(requests)@ =~= old(requests)@ + seq![
                Request::SetMinSize {
                    width: spec_min_size_hint(
                        Some(old(self).tl().min_inner_size),
                        old(self).spec_borders(),
                    ).width,
                    height: spec_min_size_hint(
                        Some(old(self).tl().min_inner_size),
                        old(self).spec_borders(),
                    ).height,
                },
                spec_max_size_request(
                    spec_max_size_hint(old(self).tl().max_inner_size, old(self).spec_borders()),
                ),
            ]);
        }
    }

    /// Set the resizable state: restoring it re-publishes the stored size
    /// hints, clearing it pins both hints to the current size.  A layer
    /// overlay ignores it.
    pub fn set_resizable(&mut self, resizable: bool, requests: &mut Vec<Request>)
        requires
            old(self).wf(),
        ensures
            final(self).wf(),
            !old(self).is_xdg() ==> {
                &&& *final(self) == *old(self)
                &&& final(requests)@ == old(requests)@
            },
            old(self).is_xdg() && old(self).tl().resizable == resizable ==> {
                &&& *final(self) == *old(self)
                &&& final(requests)@ == old(requests)@
            },
            old(self).is_xdg() && old(self).tl().resizable != resizable ==> {
                let borders = old(self).spec_borders();
                let minh = if resizable {
                    spec_min_size_hint(Some(old(self).tl().min_inner_size), borders)
                } else {
                    spec_min_size_hint(Some(old(self).size), borders)
                };
                let maxh = if resizable {
                    spec_max_size_hint(old(self).tl().max_inner_size, borders)
                } else {
                    spec_max_size_hint(Some(old(self).size), borders)
                };
                &&& *final(self) == (WindowState {
                    shell: ShellVariant::TopLevel(
                        (TopLevelState {
                            resizable,
                            min_inner_size: minh,
                            max_inner_size: maxh,
                            frame: match old(self).tl().frame {
                                Some(f) => Some((Frame { resizable, dirty: true, ..f })),
                                None => None::<Frame>,
                            },
                            ..old(self).tl()
                        }),
                    ),
                    ..*old(self)
                })
                &&& final(requests)@ == old(requests)@ + seq![
                    Request::SetMinSize { width: minh.width, height: minh.height },
                    spec_max_size_request(maxh),
                ]
            },
    {
        match &mut self.shell {
            ShellVariant::TopLevel(tl) => {
                if tl.resizable == resizable {
                    return ;
                }
                tl.resizable = resizable;
            },
            ShellVariant::LayerOverlay(_) => {
                // Resizable is ignored for layer overlays.
                return ;
            },
        }

        if resizable {
            // Restore the stored size hints of the window.
            self.reload_min_max_hints(requests);
        } else {
            let size = self.size;
            self.set_min_inner_size(Some(size), requests);
            self.set_max_inner_size(Some(size), requests);
        }

        // Reload the state on the frame as well.
        match &mut self.shell {
            ShellVariant::TopLevel(tl) => {
                match &mut tl.frame {
                    Some(frame) => frame.set_resizable(resizable),
                    None => {},
                }
            },
            ShellVariant::LayerOverlay(_) => {},
        }
    }

    /// Set the decoration theme; a layer overlay has no decorations and
    /// ignores it.
    pub fn set_theme(&mut self, theme: Option<Theme>)
        requires
            old(self).wf(),
        ensures
            final(self).wf(),
            !old(self).is_xdg() ==> *final(self) == *old(self),
            old(self).is_xdg() ==> {
                &&& *final(self) == (WindowState {
                    theme,
                    shell: ShellVariant::TopLevel(
                        (TopLevelState { frame: final(self).tl().frame, ..old(self).tl() }),
                    ),
                    ..*old(self)
                })
                &&& (match (old(self).tl().frame, final(self).tl().frame) {
                    (Some(f0), Some(f1)) => spec_frame_retheme_ok(f0, theme, f1),
                    (None, None) => true,
                    _ => false,
                })
            },
    {
        match &mut self.shell {
            ShellVariant::TopLevel(tl) => {
                self.theme = theme;
                match &mut tl.frame {
                    Some(frame) => frame.set_config(theme),
                    None => {},
                }
            },
            ShellVariant::LayerOverlay(_) => {
                // The theme is ignored for layer overlays.
            },
        }
    }

    /// Show or hide the client-side decorations: the matching decoration
    /// mode is requested from the compositor, the frame is hidden or shown,
    /// and the window is resized so the geometry follows the borders.
    pub fn set_decorate(&mut self, decorate: bool, requests: &mut Vec<Request>)
        requires
            old(self).wf(),
        ensures
            final(self).wf(),
            !old(self).is_xdg() ==> {
                &&& *final(self) == *old(self)
                &&& final(requests)@ == old(requests)@
            },
            old(self).is_xdg() && old(self).tl().decorate == decorate ==> {
                &&& *final(self) == *old(self)
                &&& final(requests)@ == old(requests)@
            },
            old(self).is_xdg() && old(self).tl().decorate != decorate ==> {
                let mode_requests = spec_decoration_mode_request(
                    old(self).tl().last_configure,
                    decorate,
                );
                match old(self).tl().frame {
                    None => {
                        &&& *final(self) == (WindowState {
                            shell: ShellVariant::TopLevel(
                                (TopLevelState { decorate, ..old(self).tl() }),
                            ),
                            ..*old(self)
                        })
                        &&& final(requests)@ == old(requests)@ + mode_requests
                    },
                    Some(f) => {
                        let tl1 = TopLevelState {
                            decorate,
                            frame: Some((Frame { hidden: !decorate, dirty: true, ..f })),
                            ..old(self).tl()
                        };
                        &&& *final(self) == (WindowState {
                            shell: ShellVariant::TopLevel(
                                spec_tl_after_resize(tl1, old(self).size),
                            ),
                            ..*old(self)
                        })
                        &&& final(requests)@ == old(requests)@ + mode_requests
                            + spec_resize_requests(
                            old(self).transparent,
                            true,
                            if decorate {
                                f.metrics
                            } else {
                                FrameMetrics::zero()
                            },
                            old(self).caps.viewport,
                            old(self).size,
                        )
                    },
                }
            },
    {
        let had_frame: bool;
        match &mut self.shell {
            ShellVariant::TopLevel(tl) => {
                if decorate == tl.decorate {
                    return ;
                }
                tl.decorate = decorate;

                let server_last = match &tl.last_configure {
                    Some(c) => c.decoration_mode == DecorationMode::Server,
                    None => false,
                };
                if server_last && !decorate {
                    // To disable decorations we should request the client
                    // mode and hide the frame.
                    requests.push(
                        Request::RequestDecorationMode { mode: DecorationMode::Client },
                    );
                } else if decorate {
                    requests.push(
                        Request::RequestDecorationMode { mode: DecorationMode::Server },
                    );
                }

                match &mut tl.frame {
                    Some(frame) => {
                        frame.set_hidden(!decorate);
                        had_frame = true;
                    },
                    None => {
                        had_frame = false;
                    },
                }
            },
            ShellVariant::LayerOverlay(_) => {
                // Client-side decorations are ignored for layer overlays.
                return ;
            },
        }
        if had_frame {
            // Force the resize so the geometry follows the borders.
            let size = self.size;
            self.resize(size, requests);
        }
    }

    /// Make the window background blurred, or clear the blur again; without
    /// a blur manager the request degrades to nothing.
    pub fn set_blur(&mut self, blurred: bool, requests: &mut Vec<Request>)
        requires
            old(self).wf(),
        ensures
            final(self).wf(),
            blurred && !old(self).blur && old(self).caps.blur_manager ==> {
                &&& *final(self) == (WindowState { blur: true, ..*old(self) })
                &&& final(requests)@ == old(requests)@ + seq![
                    Request::CreateBlur,
                    Request::CommitBlur,
                ]
            },
            blurred && !old(self).blur && !old(self).caps.blur_manager ==> {
                &&& *final(self) == *old(self)
                &&& final(requests)@ == old(requests)@
            },
            blurred && old(self).blur ==> {
                &&& *final(self) == *old(self)
                &&& final(requests)@ == old(requests)@
            },
            !blurred && old(self).blur ==> {
                &&& *final(self) == (WindowState { blur: false, ..*old(self) })
                &&& final(requests)@ == old(requests)@ + seq![
                    Request::UnsetBlur,
                    Request::ReleaseBlur,
                ]
            },
            !blurred && !old(self).blur ==> {
                &&& *final(self) == *old(self)
                &&& final(requests)@ == old(requests)@
            },
    {
        if blurred && !self.blur {
            if self.caps.blur_manager {
                requests.push(Request::CreateBlur);
                requests.push(Request::CommitBlur);
                self.blur = true;
                proof {
                    assert(requests@ =~= old(requests)@ + seq![
                        Request::CreateBlur,
                        Request::CommitBlur,
                    ]);
                }
            }
            // Without a blur manager the blur cannot be changed.
        } else if !blurred && self.blur {
            requests.push(Request::UnsetBlur);
            requests.push(Request::ReleaseBlur);
            self.blur = false;
            proof {
                assert(requests@ =~= old(requests)@ + seq![
                    Request::UnsetBlur,
                    Request::ReleaseBlur,
                ]);
            }
        }
    }

    /// Set the scale factor: without a fractional-scale listener the
    /// integer buffer scale is pushed to the surface, and a frame is told
    /// to redraw at the new scale.
    pub fn set_scale_factor(&mut self, scale_factor: u32, requests: &mut Vec<Request>)
        requires
            old(self).wf(),
            valid_scale(scale_factor),
        ensures
            final(self).wf(),
            *final(self) == (WindowState {
                scale_factor,
                shell: match old(self).shell {
                    ShellVariant::TopLevel(tl) => ShellVariant::TopLevel(
                        (TopLevelState {
                            frame: match tl.frame {
                                Some(f) => Some(
                                    (Frame { scale: scale_factor, dirty: true, ..f }),
                                ),
                                None => None::<Frame>,
                            },
                            ..tl
                        }),
                    ),
                    l => l,
                },
                ..*old(self)
            }),
            final(requests)@ == old(requests)@ + (if old(self).caps.fractional_scale {
                Seq::<Request>::empty()
            } else {
                seq![Request::SetBufferScale { scale: (scale_factor / crate::dpi::SCALE_ONE) as u32 }]
            }),
    {
        self.scale_factor = scale_factor;

        // When fractional scaling is not in use, update the buffer scale.
        if !self.caps.fractional_scale {
            requests.push(Request::SetBufferScale { scale: scale_factor / crate::dpi::SCALE_ONE });
            proof {
                assert(requests@ =~= old(requests)@ + seq![
                    Request::SetBufferScale {
                        scale: (scale_factor / crate::dpi::SCALE_ONE) as u32,
                    },
                ]);
            }
        }

        match &mut self.shell {
            ShellVariant::TopLevel(tl) => {
                match &mut tl.frame {
                    Some(frame) => frame.set_scaling_factor(scale_factor),
                    None => {},
                }
            },
            ShellVariant::LayerOverlay(_) => {},
        }
    }

    /// Mark the window as transparent and reissue the opacity hint.
    pub fn set_transparent(&mut self, transparent: bool, requests: &mut Vec<Request>)
        requires
            old(self).wf(),
        ensures
            final(self).wf(),
            *final(self) == (WindowState { transparent, ..*old(self) }),
            final(requests)@ == old(requests)@ + seq![
                crate::window::spec_transparency_request(transparent),
            ],
    {
        self.transparent = transparent;
        self.reload_transparency_hint(requests);
    }

    /// Set the window title to a new value, truncated to at most
    /// `TITLE_MAX_BYTES` bytes on a character boundary so it does not blow
    /// up the protocol messages.  The title reaches the frame and the
    /// compositor only for a top-level window.
    pub fn set_title(&mut self, title: String, requests: &mut Vec<Request>)
        requires
            old(self).wf(),
        ensures
            final(self).wf(),
            encode_utf8(final(self).title@) == spec_truncate_title(encode_utf8(title@)),
            encode_utf8(title@).len() <= TITLE_MAX_BYTES ==> final(self).title@ == title@,
            !old(self).is_xdg() ==> {
                &&& *final(self) == (WindowState { title: final(self).title, ..*old(self) })
                &&& final(requests)@ == old(requests)@
            },
            old(self).is_xdg() ==> {
                &&& *final(self) == (WindowState {
                    title: final(self).title,
                    shell: ShellVariant::TopLevel(
                        (TopLevelState { frame: final(self).tl().frame, ..old(self).tl() }),
                    ),
                    ..*old(self)
                })
                &&& (match (old(self).tl().frame, final(self).tl().frame) {
                    (Some(f0), Some(f1)) => spec_frame_retitle_ok(f0, final(self).title@, f1),
                    (None, None) => true,
                    _ => false,
                })
                &&& final(requests)@ == old(requests)@ + seq![Request::SetWindowTitle]
            },
    {
        let title = crate::title::truncate_title(title);

        match &mut self.shell {
            ShellVariant::TopLevel(tl) => {
                // Update the client-side decoration title.
                match &mut tl.frame {
                    Some(frame) => frame.set_title(title.as_str()),
                    None => {},
                }
                requests.push(Request::SetWindowTitle);
                proof {
                    assert(requests@ =~= old(requests)@ + seq![Request::SetWindowTitle]);
                }
            },
            ShellVariant::LayerOverlay(_) => {},
        }
        self.title = title;
    }
}

} // verus!
