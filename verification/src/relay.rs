//! Copying a byte stream from one connection to another.
use vstd::prelude::*;
use vstd::slice::slice_subrange;

verus! {

/// How many bytes are read at once.
pub const RELAY_BUFFER_LEN: usize = 16384;

/// What to do with the outcome of a read.
pub enum RelayAction<'a> {
    /// Write these bytes to the other side, then read on.
    Forward(&'a [u8]),
    /// The stream has ended: end the other side's too, and stop.
    Finish,
}

/// What to do with the outcome of a read, with bytes as a sequence.
pub enum RelayModel {
    Forward(Seq<u8>),
    Finish,
}

impl<'a> View for RelayAction<'a> {
    type V = RelayModel;

    open spec fn view(&self) -> RelayModel {
        match self {
            RelayAction::Forward(bytes) => RelayModel::Forward(bytes@),
            RelayAction::Finish => RelayModel::Finish,
        }
    }
}

/// What to do with the bytes of a read: they are forwarded, and a read of no bytes is the end
/// of the stream.
pub open spec fn relay_next(read: Seq<u8>) -> RelayModel {
    if read.len() == 0 {
        RelayModel::Finish
    } else {
        RelayModel::Forward(read)
    }
}

/// Decides what to do after `n` bytes were read into `buf`.
pub fn relay_action<'a>(buf: &'a [u8], n: usize) -> (action: RelayAction<'a>)
    requires
        n <= buf@.len(),
    ensures
        action@ == relay_next(buf@.take(n as int)),
{
    if n == 0 {
        RelayAction::Finish
    } else {
        let bytes = slice_subrange(buf, 0, n);
        assert(bytes@ =~= buf@.take(n as int));
        RelayAction::Forward(bytes)
    }
}

/// What has been written to the other side after the given reads.
pub open spec fn relayed(reads: Seq<Seq<u8>>) -> Seq<u8>
    decreases reads.len(),
{
    if reads.len() == 0 {
        Seq::empty()
    } else {
        match relay_next(reads[0]) {
            RelayModel::Forward(bytes) => bytes + relayed(reads.drop_first()),
            RelayModel::Finish => Seq::empty(),
        }
    }
}

/// Everything that was read before the end of the stream is written, in the order in which it
/// was read, and nothing that may follow the end.
pub proof fn law_relay_keeps_the_stream(reads: Seq<Seq<u8>>, after_end: Seq<Seq<u8>>)
    requires
        forall|i: int| 0 <= i < reads.len() ==> (#[trigger] reads[i]).len() > 0,
    ensures
        relayed(reads) == reads.flatten(),
        relayed(reads.push(Seq::empty()) + after_end) == reads.flatten(),
    decreases reads.len(),
{
    let all = reads.push(Seq::empty()) + after_end;
    if reads.len() == 0 {
        assert(all[0] =~= Seq::<u8>::empty());
    } else {
        let rest = reads.drop_first();
        assert forall|i: int| 0 <= i < rest.len() implies (#[trigger] rest[i]).len() > 0 by {
            assert(rest[i] == reads[i + 1]);
        }
        law_relay_keeps_the_stream(rest, after_end);
        assert(all[0] == reads[0]);
        assert(all.drop_first() =~= rest.push(Seq::empty()) + after_end);
    }
}

/// Which part of copying a stream failed.
#[derive(Debug, Clone, Copy, PartialEq, Eq, Structural)]
pub enum RelayError {
    /// Reading from the TCP connection.
    TcpRead,
    /// Writing to the TCP connection.
    TcpWrite,
    /// Reading from the iroh stream.
    IrohRecv,
    /// Writing to the iroh stream.
    IrohSend,
}

impl RelayError {
    /// The sentence that tells an operator about the error.
    pub open spec fn message_spec(self) -> Seq<char> {
        match self {
            RelayError::TcpRead => "tcp read failed"@,
            RelayError::TcpWrite => "tcp write failed"@,
            RelayError::IrohRecv => "iroh recv failed"@,
            RelayError::IrohSend => "iroh send failed"@,
        }
    }

    /// The sentence that tells an operator about the error.
    pub fn message(&self) -> (s: String)
        ensures
            s@ == self.message_spec(),
    {
        match self {
            RelayError::TcpRead => "tcp read failed".to_owned(),
            RelayError::TcpWrite => "tcp write failed".to_owned(),
            RelayError::IrohRecv => "iroh recv failed".to_owned(),
            RelayError::IrohSend => "iroh send failed".to_owned(),
        }
    }
}

/// How far one direction of a relay has come.
#[derive(Debug, Clone, Copy, PartialEq, Eq, Structural)]
pub enum Direction {
    /// It is being copied.
    Running,
    /// It was copied to the end of its stream.
    Ended,
    /// It broke off.
    Failed(RelayError),
}

/// How far a relay has come.
#[derive(Debug, Clone, Copy, PartialEq, Eq, Structural)]
pub enum RelayProgress {
    /// Copy on what is still running.
    GoOn,
    /// The relay has ended.
    Ended,
    /// The relay broke off: stop copying in both directions.
    Failed(RelayError),
}

/// How far a relay has come whose directions have come so far. Of two failures that of the first
/// direction counts.
pub open spec fn joined(first: Direction, second: Direction) -> RelayProgress {
    match (first, second) {
        (Direction::Failed(err), _) => RelayProgress::Failed(err),
        (_, Direction::Failed(err)) => RelayProgress::Failed(err),
        (Direction::Ended, Direction::Ended) => RelayProgress::Ended,
        _ => RelayProgress::GoOn,
    }
}

/// Decides how far a relay has come: it ends with both directions, and breaks off with either.
pub fn relay_progress(first: Direction, second: Direction) -> (progress: RelayProgress)
    ensures
        progress == joined(first, second),
        progress == RelayProgress::Ended <==> first == Direction::Ended && second
            == Direction::Ended,
        progress is Failed <==> first is Failed || second is Failed,
        progress matches RelayProgress::Failed(err) ==> first == Direction::Failed(err) || second
            == Direction::Failed(err),
{
    match first {
        Direction::Failed(err) => RelayProgress::Failed(err),
        Direction::Ended => match second {
            Direction::Failed(err) => RelayProgress::Failed(err),
            Direction::Ended => RelayProgress::Ended,
            Direction::Running => RelayProgress::GoOn,
        },
        Direction::Running => match second {
            Direction::Failed(err) => RelayProgress::Failed(err),
            Direction::Ended => RelayProgress::GoOn,
            Direction::Running => RelayProgress::GoOn,
        },
    }
}

/// A direction that has ended, or failed, stays so. So a relay whose directions go on from
/// `first` and `second` to `later_first` and `later_second` stays ended once it has ended, and
/// never ends well once one of its directions has failed.
pub proof fn law_finished_relay_stays_finished(
    first: Direction,
    second: Direction,
    later_first: Direction,
    later_second: Direction,
)
    requires
        first is Running || later_first == first,
        second is Running || later_second == second,
    ensures
        joined(first, second) is Ended ==> joined(later_first, later_second) is Ended,
        joined(first, second) is Failed ==> joined(later_first, later_second) is Failed,
{
}

/// A read of no bytes ends a stream, and the bytes of every other read are forwarded, just those.
pub proof fn law_only_empty_reads_end_a_stream(action: RelayAction, read: Seq<u8>)
    requires
        action@ == relay_next(read),
    ensures
        action is Finish <==> read.len() == 0,
        action matches RelayAction::Forward(bytes) ==> bytes@ == read,
{
}

/// A relay has ended when both directions have, and failed as soon as one has, with its error;
/// where both have, with that of the first. Until then it goes on.
pub proof fn law_relay_ends_with_both_directions(first: Direction, second: Direction, err: RelayError)
    ensures
        joined(Direction::Ended, Direction::Ended) == RelayProgress::Ended,
        joined(Direction::Running, Direction::Running) == RelayProgress::GoOn,
        joined(Direction::Running, Direction::Ended) == RelayProgress::GoOn,
        joined(Direction::Ended, Direction::Running) == RelayProgress::GoOn,
        joined(Direction::Failed(err), second) == RelayProgress::Failed(err),
        !(first is Failed) ==> joined(first, Direction::Failed(err)) == RelayProgress::Failed(err),
{
}

/// The sentence of a relay error names the side and what was done there.
pub proof fn law_relay_error_sentences()
    ensures
        RelayError::TcpRead.message_spec() == "tcp read failed"@,
        RelayError::TcpWrite.message_spec() == "tcp write failed"@,
        RelayError::IrohRecv.message_spec() == "iroh recv failed"@,
        RelayError::IrohSend.message_spec() == "iroh send failed"@,
{
}

}
