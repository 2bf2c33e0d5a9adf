//! Window-side data: physical sizes, the window description handed to the
//! windowing collaborator, and the input events it delivers back per tick.

use vstd::prelude::*;

verus! {

/// A width and height in physical pixels.
#[derive(Clone, Copy, PartialEq, Eq, Debug)]
pub struct PhysicalSize {
    pub width: u32,
    pub height: u32,
}

impl PhysicalSize {
    pub fn new(width: u32, height: u32) -> (r: PhysicalSize)
        ensures
            r.width == width,
            r.height == height,
    {
        PhysicalSize { width, height }
    }
}

/// What the window is created with: whether the user may resize it, its
/// title, and its initial size in physical pixels.
#[derive(PartialEq, Eq, Debug)]
pub struct WindowData {
    pub resizeable: bool,
    pub title: String,
    pub size: PhysicalSize,
}

impl WindowData {
    pub fn new(resizeable: bool, title: String, size: PhysicalSize) -> (r: Self)
        ensures
            r.resizeable == resizeable,
            r.title@ == title@,
            r.size == size,
    {
        Self { resizeable, title, size }
    }
}

/// Whether a key was pressed or released.
#[derive(Clone, Copy, PartialEq, Eq, Debug)]
pub enum ElementState {
    Pressed,
    Released,
}

/// The keys the engine reacts to; every other key is `Other`.
#[derive(Clone, Copy, PartialEq, Eq, Debug)]
pub enum VirtualKey {
    Escape,
    Other,
}

/// An input event delivered by the windowing collaborator.
#[derive(Clone, Copy, PartialEq, Eq, Debug)]
pub enum WindowEvent {
    CloseRequested,
    KeyboardInput { state: ElementState, key: Option<VirtualKey> },
    Resized(PhysicalSize),
    ScaleFactorChanged(PhysicalSize),
    Other,
}

/// An event that must terminate the loop: a close request, or the escape
/// key going down.
pub open spec fn is_exit_event(e: WindowEvent) -> bool {
    ||| e is CloseRequested
    ||| (e matches WindowEvent::KeyboardInput { state, key }
        && state is Pressed && key == Some(VirtualKey::Escape))
}

} // verus!
