//! The presentation task: a splash screen at startup, then one rendered
//! caption per reading taken from the broadcast channel.
//!
//! The task is a state machine. The firmware carries out the command that a
//! step returns (it draws, flushes, sleeps or suspends) and answers with the
//! event that the command asks for.

use crate::channel::{lemma_latest_wins, BroadcastChannel, ChannelView, Reading, Subscription};
use crate::text::{buffer_text, caption, format_reading, TextBuffer};
use vstd::prelude::*;

verus! {

/// Seconds for which the splash image stays on the screen.
pub const SPLASH_HOLD_SECS: u64 = 2;

/// Width of the splash image in pixels.
pub const SPLASH_WIDTH: u32 = 64;

/// Left edge of the splash image on the screen.
pub const SPLASH_LEFT: i32 = 32;

/// Top edge of the splash image on the screen.
pub const SPLASH_TOP: i32 = 0;

/// Horizontal position of the caption on the screen.
pub const CAPTION_LEFT: i32 = 10;

/// Vertical position of the caption's baseline on the screen.
pub const CAPTION_BASELINE: i32 = 32;

/// What the screen shows after a `Show` command.
#[derive(Debug, PartialEq, Eq)]
pub enum Frame {
    /// The splash image at its fixed position, on the screen as it is.
    Splash,
    /// Nothing: the screen buffer is cleared.
    Blank,
    /// The screen buffer is cleared and the caption drawn at its fixed position.
    Caption(TextBuffer),
}

/// A frame with the caption spelled out.
pub enum FrameView {
    Splash,
    Blank,
    Caption(Seq<char>),
}

impl View for Frame {
    type V = FrameView;

    open spec fn view(&self) -> FrameView {
        match self {
            Frame::Splash => FrameView::Splash,
            Frame::Blank => FrameView::Blank,
            Frame::Caption(text) => FrameView::Caption(buffer_text(*text)),
        }
    }
}

/// What the firmware has to do next for the presentation task.
#[derive(Debug, PartialEq, Eq)]
pub enum PresentationCommand {
    /// Put the frame into the screen buffer and flush the buffer to the device
    /// once. Answer with `Rendered`.
    Show(Frame),
    /// Leave the screen alone for this many seconds. Answer with `HoldElapsed`.
    Hold(u64),
    /// Suspend until the channel is published to. Answer with `Notified`.
    AwaitReading,
    /// The event did not belong to the state the task is in; carry on with
    /// what was asked for before.
    Nothing,
    /// An unrecoverable condition: stop making progress.
    Halt,
}

/// A command with the caption spelled out.
pub enum PresentationCommandView {
    Show(FrameView),
    Hold(u64),
    AwaitReading,
    Nothing,
    Halt,
}

impl View for PresentationCommand {
    type V = PresentationCommandView;

    open spec fn view(&self) -> PresentationCommandView {
        match self {
            PresentationCommand::Show(frame) => PresentationCommandView::Show(frame@),
            PresentationCommand::Hold(secs) => PresentationCommandView::Hold(*secs),
            PresentationCommand::AwaitReading => PresentationCommandView::AwaitReading,
            PresentationCommand::Nothing => PresentationCommandView::Nothing,
            PresentationCommand::Halt => PresentationCommandView::Halt,
        }
    }
}

/// How an attempt to draw and flush a frame ended.
#[derive(Debug, Clone, Copy, PartialEq, Eq)]
pub enum RenderOutcome {
    Completed,
    Failed,
}

/// What the firmware reports back to the presentation task.
#[derive(Debug, Clone, Copy, PartialEq, Eq)]
pub enum PresentationEvent {
    /// The task was started.
    Started,
    /// The frame of the last `Show` command was drawn and flushed, or an
    /// attempt to do so failed.
    Rendered(RenderOutcome),
    /// The time of the last `Hold` command is over.
    HoldElapsed,
    /// The channel was published to while the task was suspended.
    Notified,
}

/// Where the presentation task stands.
#[derive(Debug, PartialEq, Eq)]
pub enum PresentationState {
    /// Not started yet.
    Start,
    /// The splash image is on its way to the screen.
    ShowingSplash,
    /// The splash image is held on the screen.
    HoldingSplash,
    /// The blank frame that ends the startup sequence is on its way to the screen.
    Clearing,
    /// Suspended until a reading newer than the subscription's marker exists.
    Waiting(Subscription),
    /// A caption is on its way to the screen.
    Rendering(Subscription),
    /// Stopped for good.
    Halted,
}

/// A state with the subscription replaced by the generation it has seen.
pub enum PresentationStateView {
    Start,
    ShowingSplash,
    HoldingSplash,
    Clearing,
    Waiting(nat),
    Rendering(nat),
    Halted,
}

impl View for PresentationState {
    type V = PresentationStateView;

    open spec fn view(&self) -> PresentationStateView {
        match self {
            PresentationState::Start => PresentationStateView::Start,
            PresentationState::ShowingSplash => PresentationStateView::ShowingSplash,
            PresentationState::HoldingSplash => PresentationStateView::HoldingSplash,
            PresentationState::Clearing => PresentationStateView::Clearing,
            PresentationState::Waiting(subscription) => PresentationStateView::Waiting(
                subscription@,
            ),
            PresentationState::Rendering(subscription) => PresentationStateView::Rendering(
                subscription@,
            ),
            PresentationState::Halted => PresentationStateView::Halted,
        }
    }
}

/// The state and command of a task that asks the channel for news, having
/// seen generation `seen`: with news it renders the caption of the freshest
/// reading, without it suspends.
pub open spec fn resume(seen: nat, channel: ChannelView) -> (
    PresentationStateView,
    PresentationCommandView,
) {
    match channel.wait(seen) {
        Some(reading) => (
            PresentationStateView::Rendering(channel.seen_after_wait(seen)),
            PresentationCommandView::Show(FrameView::Caption(caption(reading))),
        ),
        None => (PresentationStateView::Waiting(seen), PresentationCommandView::AwaitReading),
    }
}

/// One step of the presentation task: the state and the command that follow
/// from `state` and `event`, and what becomes of the channel.
///
/// Startup shows the splash image, holds it, clears the screen and then
/// subscribes; a task that finds no subscription left halts. From then on each
/// reading taken from the channel is rendered with a single flush, and the
/// outcome of that flush does not matter for what comes next.
pub open spec fn transition(
    state: PresentationStateView,
    event: PresentationEvent,
    channel: ChannelView,
) -> (PresentationStateView, PresentationCommandView, ChannelView) {
    match (state, event) {
        (PresentationStateView::Start, PresentationEvent::Started) => (
            PresentationStateView::ShowingSplash,
            PresentationCommandView::Show(FrameView::Splash),
            channel,
        ),
        (PresentationStateView::ShowingSplash, PresentationEvent::Rendered(_)) => (
            PresentationStateView::HoldingSplash,
            PresentationCommandView::Hold(SPLASH_HOLD_SECS),
            channel,
        ),
        (PresentationStateView::HoldingSplash, PresentationEvent::HoldElapsed) => (
            PresentationStateView::Clearing,
            PresentationCommandView::Show(FrameView::Blank),
            channel,
        ),
        (PresentationStateView::Clearing, PresentationEvent::Rendered(_)) => {
            if channel.has_room() {
                (resume(0, channel.subscribe()).0, resume(0, channel.subscribe()).1, channel.subscribe())
            } else {
                (PresentationStateView::Halted, PresentationCommandView::Halt, channel)
            }
        },
        (PresentationStateView::Waiting(seen), PresentationEvent::Notified) => (
            resume(seen, channel).0,
            resume(seen, channel).1,
            channel,
        ),
        (PresentationStateView::Rendering(seen), PresentationEvent::Rendered(_)) => (
            resume(seen, channel).0,
            resume(seen, channel).1,
            channel,
        ),
        (PresentationStateView::Halted, _) => (
            PresentationStateView::Halted,
            PresentationCommandView::Halt,
            channel,
        ),
        _ => (state, PresentationCommandView::Nothing, channel),
    }
}

fn ask_channel(subscription: Subscription, channel: &BroadcastChannel) -> (next: (
    PresentationState,
    PresentationCommand,
))
    ensures
        (next.0@, next.1@) == resume(subscription@, channel@),
{
    let mut subscription = subscription;
    match channel.try_wait(&mut subscription) {
        Some(reading) => (
            PresentationState::Rendering(subscription),
            PresentationCommand::Show(Frame::Caption(format_reading(reading))),
        ),
        None => (PresentationState::Waiting(subscription), PresentationCommand::AwaitReading),
    }
}

impl PresentationState {
    /// Advances the task by one event and says what the firmware has to do
    /// next.
    pub fn step(self, event: PresentationEvent, channel: &mut BroadcastChannel) -> (next: (
        PresentationState,
        PresentationCommand,
    ))
        ensures
            (next.0@, next.1@, final(channel)@) == transition(self@, event, old(channel)@),
    {
        match (self, event) {
            (PresentationState::Start, PresentationEvent::Started) => (
                PresentationState::ShowingSplash,
                PresentationCommand::Show(Frame::Splash),
            ),
            (PresentationState::ShowingSplash, PresentationEvent::Rendered(_)) => (
                PresentationState::HoldingSplash,
                PresentationCommand::Hold(SPLASH_HOLD_SECS),
            ),
            (PresentationState::HoldingSplash, PresentationEvent::HoldElapsed) => (
                PresentationState::Clearing,
                PresentationCommand::Show(Frame::Blank),
            ),
            (PresentationState::Clearing, PresentationEvent::Rendered(_)) => {
                match channel.subscribe() {
                    Some(subscription) => ask_channel(subscription, channel),
                    None => (PresentationState::Halted, PresentationCommand::Halt),
                }
            },
            (PresentationState::Waiting(subscription), PresentationEvent::Notified) => ask_channel(
                subscription,
                channel,
            ),
            (
                PresentationState::Rendering(subscription),
                PresentationEvent::Rendered(_),
            ) => ask_channel(subscription, channel),
            (PresentationState::Halted, _) => (
                PresentationState::Halted,
                PresentationCommand::Halt,
            ),
            (state, _) => (state, PresentationCommand::Nothing),
        }
    }
}

/// A failed draw or flush is ignored: the task goes on exactly as after one
/// that went through.
pub proof fn lemma_render_failures_are_ignored(
    state: PresentationStateView,
    channel: ChannelView,
)
    ensures
        transition(state, PresentationEvent::Rendered(RenderOutcome::Failed), channel)
            == transition(state, PresentationEvent::Rendered(RenderOutcome::Completed), channel),
{
}

/// A reading published while the task is suspended is rendered with its
/// caption in a single frame, which means a single flush, and after that
/// flush the task is suspended again with the reading marked as seen.
pub proof fn lemma_published_reading_is_rendered_once(
    channel: ChannelView,
    seen: nat,
    reading: Reading,
    outcome: RenderOutcome,
)
    requires
        seen <= channel.generation,
    ensures
        transition(
            PresentationStateView::Waiting(seen),
            PresentationEvent::Notified,
            channel.publish(reading),
        ) == (
            PresentationStateView::Rendering(channel.generation + 1),
            PresentationCommandView::Show(FrameView::Caption(caption(reading))),
            channel.publish(reading),
        ),
        transition(
            PresentationStateView::Rendering(channel.generation + 1),
            PresentationEvent::Rendered(outcome),
            channel.publish(reading),
        ) == (
            PresentationStateView::Waiting(channel.generation + 1),
            PresentationCommandView::AwaitReading,
            channel.publish(reading),
        ),
{
}

/// A slow consumer sees only the freshest value: whatever was published while
/// a frame was on its way to the screen, the next frame is the caption of the
/// reading published last, and the readings before it are never rendered.
pub proof fn lemma_next_frame_shows_the_latest(
    channel: ChannelView,
    seen: nat,
    readings: Seq<Reading>,
    outcome: RenderOutcome,
)
    requires
        seen <= channel.generation,
        readings.len() > 0,
    ensures
        transition(
            PresentationStateView::Rendering(seen),
            PresentationEvent::Rendered(outcome),
            channel.publish_all(readings),
        ) == (
            PresentationStateView::Rendering(channel.generation + readings.len()),
            PresentationCommandView::Show(FrameView::Caption(caption(readings.last()))),
            channel.publish_all(readings),
        ),
{
    lemma_latest_wins(channel, readings, seen);
}

/// The task halts for one reason only: the startup sequence is over and the
/// channel has no subscription left for it.
pub proof fn lemma_halts_only_without_subscription(
    state: PresentationStateView,
    event: PresentationEvent,
    channel: ChannelView,
)
    requires
        transition(state, event, channel).0 is Halted,
        !(state is Halted),
    ensures
        state is Clearing,
        event is Rendered,
        !channel.has_room(),
        transition(state, event, channel).2 == channel,
{
}

/// A task that is woken although nothing was published since it last took a
/// reading stays suspended and draws nothing.
pub proof fn lemma_no_news_no_frame(channel: ChannelView, seen: nat)
    requires
        channel.generation <= seen,
    ensures
        transition(PresentationStateView::Waiting(seen), PresentationEvent::Notified, channel) == (
            PresentationStateView::Waiting(seen),
            PresentationCommandView::AwaitReading,
            channel,
        ),
{
}

/// A halted task stays halted, whatever is reported to it.
pub proof fn lemma_halted_stays_halted(event: PresentationEvent, channel: ChannelView)
    ensures
        transition(PresentationStateView::Halted, event, channel) == (
            PresentationStateView::Halted,
            PresentationCommandView::Halt,
            channel,
        ),
{
}

} // verus!
