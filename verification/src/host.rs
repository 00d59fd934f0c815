//! The host side of the deterministic driving contract: what each of the module's
//! imports answers, and what the host remembers of the calls it receives.

use vstd::prelude::*;

verus! {

/// The synthetic clock advances by this many milliseconds on every read.
pub const DOOM_CLOCK_STEP_MS: i64 = 1000;

/// One call the guest makes into a host import, with the arguments the host uses.
#[derive(Clone, Copy, Debug, PartialEq, Eq)]
pub enum HostCall {
    /// `audio.registerSound`
    RegisterSound,
    /// `audio.startSound`
    StartSound,
    /// `audio.stopSound`
    StopSound,
    /// `audio.updateSoundParams`
    UpdateSoundParams,
    /// `audio.soundIsPlaying`
    SoundIsPlaying,
    /// `audio.registerSong`
    RegisterSong,
    /// `audio.unregisterSong`
    UnregisterSong,
    /// `audio.playSong`
    PlaySong,
    /// `audio.stopSong`
    StopSong,
    /// `audio.pauseSong`
    PauseSong,
    /// `audio.resumeSong`
    ResumeSong,
    /// `audio.setMusicVolume`
    SetMusicVolume,
    /// `audio.songIsPlaying`
    SongIsPlaying,
    /// `console.onErrorMessage`
    OnErrorMessage,
    /// `console.onInfoMessage`
    OnInfoMessage,
    /// `gameSaving.writeSaveGame`, with the length of the save data
    WriteSaveGame { len: i32 },
    /// `gameSaving.readSaveGame`
    ReadSaveGame,
    /// `gameSaving.sizeOfSaveGame`
    SizeOfSaveGame,
    /// `runtimeControl.timeInMilliseconds`
    TimeInMilliseconds,
    /// `ui.drawFrame`, with the framebuffer's offset in linear memory
    DrawFrame { offset: i32 },
    /// `loading.readWads`
    ReadWads,
    /// `loading.wadSizes`
    WadSizes,
    /// `loading.onGameInit`, with the frame's dimensions
    OnGameInit { width: i32, height: i32 },
}

/// What the host hands back to the guest for one call.
#[derive(Clone, Copy, Debug, PartialEq, Eq)]
pub enum HostReply {
    /// The import returns nothing.
    Nothing,
    /// The import returns an `i32`.
    I32(i32),
    /// The import returns an `i64`.
    I64(i64),
}

/// Host state threaded through the imports: the synthetic clock, the last framebuffer
/// offset `ui.drawFrame` delivered, and the dimensions `loading.onGameInit` reported.
pub struct DoomState {
    ms: i64,
    frame_off: Option<u32>,
    frame_w: u32,
    frame_h: u32,
}

/// The mathematical model of the host state.
pub struct HostModel {
    pub ms: int,
    pub frame_off: Option<u32>,
    pub frame_w: u32,
    pub frame_h: u32,
}

impl View for DoomState {
    type V = HostModel;

    closed spec fn view(&self) -> HostModel {
        HostModel {
            ms: self.ms as int,
            frame_off: self.frame_off,
            frame_w: self.frame_w,
            frame_h: self.frame_h,
        }
    }
}

/// The state before any call: clock at zero, no frame delivered, no dimensions reported.
pub open spec fn initial_model() -> HostModel {
    HostModel { ms: 0, frame_off: None, frame_w: 0, frame_h: 0 }
}

/// Whether a call is one whose effect the host remembers.
pub open spec fn is_stateful(call: HostCall) -> bool {
    match call {
        HostCall::TimeInMilliseconds => true,
        HostCall::DrawFrame { .. } => true,
        HostCall::OnGameInit { .. } => true,
        _ => false,
    }
}

/// The host state after one call.
pub open spec fn step_model(s: HostModel, call: HostCall) -> HostModel {
    match call {
        HostCall::TimeInMilliseconds => HostModel { ms: s.ms + DOOM_CLOCK_STEP_MS, ..s },
        HostCall::DrawFrame { offset } => HostModel { frame_off: Some(offset as u32), ..s },
        HostCall::OnGameInit { width, height } => HostModel {
            frame_w: width as u32,
            frame_h: height as u32,
            ..s
        },
        _ => s,
    }
}

/// The reply to a call, given the host state after it.
pub open spec fn reply_of(after: HostModel, call: HostCall) -> HostReply {
    match call {
        HostCall::TimeInMilliseconds => HostReply::I64(after.ms as i64),
        HostCall::WriteSaveGame { len } => HostReply::I32(len),
        HostCall::SoundIsPlaying => HostReply::I32(0),
        HostCall::RegisterSong => HostReply::I32(0),
        HostCall::SongIsPlaying => HostReply::I32(0),
        HostCall::ReadSaveGame => HostReply::I32(0),
        HostCall::SizeOfSaveGame => HostReply::I32(0),
        _ => HostReply::Nothing,
    }
}

/// Whether the clock can take one more step without leaving `i64`.
pub open spec fn clock_can_advance(s: HostModel) -> bool {
    s.ms + DOOM_CLOCK_STEP_MS <= i64::MAX
}

impl DoomState {
    /// The host before the module runs.
    pub fn new() -> (s: DoomState)
        ensures
            s@ == initial_model(),
    {
        DoomState { ms: 0, frame_off: None, frame_w: 0, frame_h: 0 }
    }

    /// Answer one import call under the deterministic contract and record its effect:
    /// the clock self-advances a fixed step on every read and returns the new time,
    /// `drawFrame` and `onGameInit` are remembered, saving writes report the whole
    /// length written and reads find nothing, and every audio, console and WAD call
    /// is declined without effect.
    pub fn handle(&mut self, call: HostCall) -> (reply: HostReply)
        requires
            call == HostCall::TimeInMilliseconds ==> clock_can_advance(old(self)@),
        ensures
            final(self)@ == step_model(old(self)@, call),
            reply == reply_of(final(self)@, call),
            call == HostCall::TimeInMilliseconds ==> final(self)@.ms == old(self)@.ms + 1000
                && reply == HostReply::I64((old(self)@.ms + 1000) as i64),
            call matches HostCall::WriteSaveGame { len } ==> reply == HostReply::I32(len)
                && final(self)@ == old(self)@,
            call matches HostCall::DrawFrame { offset } ==> reply == HostReply::Nothing
                && final(self)@.frame_off == Some(offset as u32) && final(self)@.ms == old(self)@.ms
                && final(self)@.frame_w == old(self)@.frame_w && final(self)@.frame_h == old(
                self,
            )@.frame_h,
            call matches HostCall::OnGameInit { width, height } ==> reply == HostReply::Nothing
                && final(self)@.frame_w == width as u32 && final(self)@.frame_h == height as u32
                && final(self)@.ms == old(self)@.ms && final(self)@.frame_off == old(self)@.frame_off,
            !is_stateful(call) ==> final(self)@ == old(self)@,
    {
        proof {
            law_replies(old(self)@, call);
        }
        match call {
            HostCall::TimeInMilliseconds => {
                self.ms = self.ms + DOOM_CLOCK_STEP_MS;
                HostReply::I64(self.ms)
            },
            HostCall::DrawFrame { offset } => {
                self.frame_off = Some(offset as u32);
                HostReply::Nothing
            },
            HostCall::OnGameInit { width, height } => {
                self.frame_w = width as u32;
                self.frame_h = height as u32;
                HostReply::Nothing
            },
            HostCall::WriteSaveGame { len } => HostReply::I32(len),
            HostCall::SoundIsPlaying => HostReply::I32(0),
            HostCall::RegisterSong => HostReply::I32(0),
            HostCall::SongIsPlaying => HostReply::I32(0),
            HostCall::ReadSaveGame => HostReply::I32(0),
            HostCall::SizeOfSaveGame => HostReply::I32(0),
            _ => HostReply::Nothing,
        }
    }

    /// The synthetic clock's current reading, in milliseconds.
    pub fn clock_ms(&self) -> (ms: i64)
        ensures
            ms == self@.ms,
    {
        self.ms
    }

    /// The framebuffer offset the last `drawFrame` delivered, if any.
    pub fn frame_offset(&self) -> (off: Option<u32>)
        ensures
            off == self@.frame_off,
    {
        self.frame_off
    }

    /// The frame width the last `onGameInit` reported.
    pub fn frame_width(&self) -> (w: u32)
        ensures
            w == self@.frame_w,
    {
        self.frame_w
    }

    /// The frame height the last `onGameInit` reported.
    pub fn frame_height(&self) -> (h: u32)
        ensures
            h == self@.frame_h,
    {
        self.frame_h
    }

    /// The captured frame: the `width * height * 4` bytes of linear memory at the offset
    /// the last `drawFrame` delivered, with the reported dimensions. A frame must have
    /// been delivered, its byte length must fit a `u32`, and it must lie inside memory.
    pub fn captured_frame(&self, memory: &[u8]) -> (res: (Vec<u8>, u32, u32))
        requires
            self@.frame_off is Some,
            self@.frame_w * self@.frame_h * 4 <= u32::MAX,
            self@.frame_off->0 + self@.frame_w * self@.frame_h * 4 <= memory@.len(),
        ensures
            res.0@ == memory@.subrange(
                self@.frame_off->0 as int,
                self@.frame_off->0 + self@.frame_w * self@.frame_h * 4,
            ),
            res.1 == self@.frame_w,
            res.2 == self@.frame_h,
    {
        let off = match self.frame_off {
            Some(off) => off as usize,
            None => 0,
        };
        let (w, h) = (self.frame_w, self.frame_h);
        assert(w * h * 4 <= u32::MAX);
        let wh: u32 = w * h;
        let n = (wh * 4) as usize;
        let len = memory.len();
        assert(off + n <= len);
        let end = off + n;
        let mut frame: Vec<u8> = Vec::new();
        let mut i = off;
        while i < end
            invariant
                off <= i <= end,
                end <= memory@.len(),
                frame@ == memory@.subrange(off as int, i as int),
            decreases end - i,
        {
            frame.push(memory[i]);
            assert(frame@ =~= memory@.subrange(off as int, i + 1));
            i = i + 1;
        }
        (frame, w, h)
    }
}


/// What each import answers, whatever the host state: a clock read returns the time
/// one step (1000 ms) later, `writeSaveGame` reports the whole length it was given,
/// the save-game reads and audio queries answer 0, and the rest answer nothing.
pub proof fn law_replies(s: HostModel, call: HostCall)
    ensures
        call == HostCall::TimeInMilliseconds ==> step_model(s, call).ms == s.ms + 1000
            && reply_of(step_model(s, call), call) == HostReply::I64((s.ms + 1000) as i64),
        call matches HostCall::WriteSaveGame { len } ==> reply_of(step_model(s, call), call)
            == HostReply::I32(len) && step_model(s, call) == s,
        (call == HostCall::ReadSaveGame || call == HostCall::SizeOfSaveGame || call
            == HostCall::SoundIsPlaying || call == HostCall::RegisterSong || call
            == HostCall::SongIsPlaying) ==> reply_of(step_model(s, call), call) == HostReply::I32(0)
            && step_model(s, call) == s,
        call matches HostCall::DrawFrame { offset } ==> reply_of(step_model(s, call), call)
            == HostReply::Nothing && step_model(s, call).frame_off == Some(offset as u32)
            && step_model(s, call).ms == s.ms && step_model(s, call).frame_w == s.frame_w
            && step_model(s, call).frame_h == s.frame_h,
        call matches HostCall::OnGameInit { width, height } ==> reply_of(step_model(s, call), call)
            == HostReply::Nothing && step_model(s, call).frame_w == width as u32 && step_model(
            s,
            call,
        ).frame_h == height as u32 && step_model(s, call).ms == s.ms && step_model(s, call).frame_off
            == s.frame_off,
        (call == HostCall::RegisterSound || call == HostCall::StartSound || call
            == HostCall::StopSound || call == HostCall::UpdateSoundParams || call
            == HostCall::UnregisterSong || call == HostCall::PlaySong || call == HostCall::StopSong
            || call == HostCall::PauseSong || call == HostCall::ResumeSong || call
            == HostCall::SetMusicVolume || call == HostCall::OnErrorMessage || call
            == HostCall::OnInfoMessage || call == HostCall::ReadWads || call == HostCall::WadSizes)
            ==> reply_of(step_model(s, call), call) == HostReply::Nothing && step_model(s, call)
            == s,
        !is_stateful(call) ==> step_model(s, call) == s,
{
}

/// The host state after a sequence of calls, starting from `s`.
pub open spec fn run_model(s: HostModel, calls: Seq<HostCall>) -> HostModel
    decreases calls.len(),
{
    if calls.len() == 0 {
        s
    } else {
        step_model(run_model(s, calls.drop_last()), calls.last())
    }
}

/// How many of the calls read the clock.
pub open spec fn clock_reads(calls: Seq<HostCall>) -> nat
    decreases calls.len(),
{
    if calls.len() == 0 {
        0
    } else {
        clock_reads(calls.drop_last()) + if calls.last() == HostCall::TimeInMilliseconds {
            1nat
        } else {
            0nat
        }
    }
}

/// The calls whose effect the host remembers, in order.
pub open spec fn stateful_calls(calls: Seq<HostCall>) -> Seq<HostCall>
    decreases calls.len(),
{
    if calls.len() == 0 {
        calls
    } else if is_stateful(calls.last()) {
        stateful_calls(calls.drop_last()).push(calls.last())
    } else {
        stateful_calls(calls.drop_last())
    }
}

/// The clock after any sequence of calls has advanced by exactly one step per read:
/// the clock sequence is a function of the number of reads alone.
pub proof fn law_clock_counts_reads(s: HostModel, calls: Seq<HostCall>)
    ensures
        run_model(s, calls).ms == s.ms + DOOM_CLOCK_STEP_MS * clock_reads(calls),
    decreases calls.len(),
{
    if calls.len() > 0 {
        law_clock_counts_reads(s, calls.drop_last());
    }
}

/// Starting from a fresh host, the reply to a clock read is the step times the number
/// of reads so far, this one included.
pub proof fn law_clock_reading(calls: Seq<HostCall>)
    ensures
        ({
            let read = HostCall::TimeInMilliseconds;
            let after = run_model(initial_model(), calls.push(read));
            DOOM_CLOCK_STEP_MS * (clock_reads(calls) + 1) <= i64::MAX ==> reply_of(after, read)
                == HostReply::I64((DOOM_CLOCK_STEP_MS * (clock_reads(calls) + 1)) as i64)
        }),
{
    let read = HostCall::TimeInMilliseconds;
    law_clock_counts_reads(initial_model(), calls.push(read));
    assert(calls.push(read).drop_last() =~= calls);
}

/// Audio, console, save-game and WAD calls leave no trace: dropping them from any
/// sequence of calls does not change the state the host ends in.
pub proof fn law_quiet_calls_are_inert(s: HostModel, calls: Seq<HostCall>)
    ensures
        run_model(s, calls) == run_model(s, stateful_calls(calls)),
    decreases calls.len(),
{
    if calls.len() > 0 {
        law_quiet_calls_are_inert(s, calls.drop_last());
        if is_stateful(calls.last()) {
            assert(stateful_calls(calls).drop_last() =~= stateful_calls(calls.drop_last()));
        }
    }
}

/// The frame the host captures is the one the last `drawFrame` delivered.
pub proof fn law_last_frame_wins(
    s: HostModel,
    before: Seq<HostCall>,
    offset: i32,
    after: Seq<HostCall>,
)
    requires
        forall|i: int| 0 <= i < after.len() ==> !(#[trigger] after[i] is DrawFrame),
    ensures
        run_model(s, before.push(HostCall::DrawFrame { offset }) + after).frame_off == Some(
            offset as u32,
        ),
    decreases after.len(),
{
    let head = before.push(HostCall::DrawFrame { offset });
    if after.len() == 0 {
        assert(head + after =~= head);
        assert(head.drop_last() =~= before);
    } else {
        law_last_frame_wins(s, before, offset, after.drop_last());
        assert((head + after).drop_last() =~= head + after.drop_last());
        assert((head + after).last() == after.last());
        assert(!(after[after.len() - 1] is DrawFrame));
    }
}

/// The frame dimensions the host holds are the ones the last `onGameInit` reported.
pub proof fn law_last_dimensions_win(
    s: HostModel,
    before: Seq<HostCall>,
    width: i32,
    height: i32,
    after: Seq<HostCall>,
)
    requires
        forall|i: int| 0 <= i < after.len() ==> !(#[trigger] after[i] is OnGameInit),
    ensures
        ({
            let end = run_model(s, before.push(HostCall::OnGameInit { width, height }) + after);
            end.frame_w == width as u32 && end.frame_h == height as u32
        }),
    decreases after.len(),
{
    let head = before.push(HostCall::OnGameInit { width, height });
    if after.len() == 0 {
        assert(head + after =~= head);
        assert(head.drop_last() =~= before);
    } else {
        law_last_dimensions_win(s, before, width, height, after.drop_last());
        assert((head + after).drop_last() =~= head + after.drop_last());
        assert((head + after).last() == after.last());
        assert(!(after[after.len() - 1] is OnGameInit));
    }
}

} // verus!
