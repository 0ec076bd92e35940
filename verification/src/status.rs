use vstd::prelude::*;

verus! {

/// Inbound control signal. Only `Start` is meaningful while the engine is
/// idle; `Cancel` may arrive at any later point of a run.
pub enum Command {
    Start,
    Cancel,
}

/// Outbound progress or terminal report, delivered to a presentation layer.
/// The two progress variants carry `(steps done so far, total steps)`.
pub enum StatusEvent {
    DownloadProgress(usize, usize),
    ApplyProgress(usize, usize),
    Ready,
    Error(String),
    Cancelled,
}

/// Terminal outcome of one engine run. `ChannelClosed` means the command
/// channel closed before a start command arrived: the run ends without a
/// terminal status report, since no dispatch target may exist any more.
pub enum Outcome {
    Ready,
    Cancelled,
    Failed(String),
    ChannelClosed,
}

} // verus!
