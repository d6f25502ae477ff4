//! The trajectory protocol: the verified state and decision layer of the
//! read/write/flush/seek protocol that the unverified shell drives against
//! the native codec.
//!
//! A trajectory value holds everything about an open handle that this layer
//! reasons about: the path and mode it was opened with, the lazily cached
//! atom count, and (for the compressed-coordinate variant) the stored
//! compression precision. The shell owns the native resource itself; each
//! native call's status code and outputs are handed to the functions here,
//! which decide what the caller sees and how the state moves.
use vstd::prelude::*;

use crate::errors::{check_code, to_c_int, Error, ErrorCode, ErrorTask};
use crate::frame::{Frame, Triplet};
use crate::FileMode;

verus! {

/// The bit pattern of the default compression precision for the
/// compressed-coordinate variant: the single-precision value 1000.0, meaning
/// three decimal digits of accuracy.
pub const DEFAULT_PRECISION_BITS: u32 = 1148846080;

/// A seek target: from the start (absolute), from the current position
/// (relative, signed), or from the end (relative, signed).
#[derive(Debug, Clone, Copy, PartialEq, Eq, Structural)]
pub enum SeekFrom {
    Start(u64),
    Current(i64),
    End(i64),
}

/// Map a seek target to the native codec's (whence, offset) pair: whence 0
/// seeks from the start, 1 from the current position, 2 from the end.
pub fn seek_params(pos: SeekFrom) -> (r: (i32, i64))
    requires
        pos matches SeekFrom::Start(offset) ==> offset <= i64::MAX,
    ensures
        pos matches SeekFrom::Start(offset) ==> r == (0i32, offset as i64),
        pos matches SeekFrom::Current(offset) ==> r == (1i32, offset),
        pos matches SeekFrom::End(offset) ==> r == (2i32, offset),
{
    match pos {
        SeekFrom::Start(offset) => (0, offset as i64),
        SeekFrom::Current(offset) => (1, offset),
        SeekFrom::End(offset) => (2, offset),
    }
}

/// Translate the status of a native seek, wrapping a failure under the seek
/// task.
pub fn finish_seek(code: ErrorCode) -> (r: Result<(), Error>)
    ensures
        code is ExdrOk ==> r is Ok,
        !(code is ExdrOk) ==> r == Err::<(), Error>(
            Error::CApiError { code, task: ErrorTask::Seek },
        ),
{
    match check_code(code, ErrorTask::Seek) {
        None => Ok(()),
        Some(err) => Err(err),
    }
}

/// The byte offset reported by the native tell primitive. A negative raw
/// offset cannot be a file position; it is a programmer or environment error
/// that the caller must rule out before converting.
pub fn tell_offset(raw: i64) -> (r: u64)
    requires
        0 <= raw,
    ensures
        r == raw as u64,
{
    raw as u64
}

/// The check run before any native decode: resolves the atom count result
/// (wrapping a failure as the nested cause of a read error) and rejects a
/// frame whose coordinate length does not match, so that malformed calls
/// never reach the native layer. On success it yields the atom count as the
/// native call's int argument.
pub fn read_precheck(num_atoms: Result<usize, Error>, frame: &Frame) -> (r: Result<i32, Error>)
    ensures
        num_atoms is Err ==> r == Err::<i32, Error>(
            Error::CouldNotCheckNAtoms(Box::new(num_atoms->Err_0)),
        ),
        num_atoms is Ok && frame.coords@.len() != num_atoms->Ok_0 ==> r == Err::<i32, Error>(
            Error::WrongSizeFrame {
                expected: num_atoms->Ok_0,
                found: frame.coords@.len() as usize,
            },
        ),
        num_atoms is Ok && frame.coords@.len() == num_atoms->Ok_0 && num_atoms->Ok_0 <= i32::MAX
            ==> r == Ok::<i32, Error>(num_atoms->Ok_0 as i32),
        num_atoms is Ok && frame.coords@.len() == num_atoms->Ok_0 && num_atoms->Ok_0 > i32::MAX
            ==> r == Err::<i32, Error>(
            Error::CastToCintFailed { value: num_atoms->Ok_0, task: ErrorTask::Read },
        ),
{
    match num_atoms {
        Err(e) => Err(Error::CouldNotCheckNAtoms(Box::new(e))),
        Ok(n) => {
            if frame.len() != n {
                Err(Error::WrongSizeFrame { expected: n, found: frame.len() })
            } else {
                to_c_int(n, ErrorTask::Read)
            }
        },
    }
}

/// The check run before any native encode: the frame supplies its own atom
/// count, so only the native call's int arguments are converted, the length
/// first and the step second.
pub fn write_precheck(frame: &Frame) -> (r: Result<(i32, i32), Error>)
    ensures
        frame.coords@.len() > i32::MAX ==> r == Err::<(i32, i32), Error>(
            Error::CastToCintFailed { value: frame.coords@.len() as usize, task: ErrorTask::Write },
        ),
        frame.coords@.len() <= i32::MAX && frame.step > i32::MAX ==> r == Err::<(i32, i32), Error>(
            Error::CastToCintFailed { value: frame.step, task: ErrorTask::Write },
        ),
        frame.coords@.len() <= i32::MAX && frame.step <= i32::MAX ==> r == Ok::<(i32, i32), Error>(
            (frame.coords@.len() as i32, frame.step as i32),
        ),
{
    let num_atoms = to_c_int(frame.len(), ErrorTask::Write)?;
    let step = to_c_int(frame.step, ErrorTask::Write)?;
    Ok((num_atoms, step))
}

/// Translate the status of a native encode, wrapping a failure under the
/// write task.
pub fn finish_write(code: ErrorCode) -> (r: Result<(), Error>)
    ensures
        code is ExdrOk ==> r is Ok,
        !(code is ExdrOk) ==> r == Err::<(), Error>(
            Error::CApiError { code, task: ErrorTask::Write },
        ),
{
    match check_code(code, ErrorTask::Write) {
        None => Ok(()),
        Some(err) => Err(err),
    }
}

/// Translate the status of a native flush, wrapping a failure under the
/// flush task.
pub fn finish_flush(code: ErrorCode) -> (r: Result<(), Error>)
    ensures
        code is ExdrOk ==> r is Ok,
        !(code is ExdrOk) ==> r == Err::<(), Error>(
            Error::CApiError { code, task: ErrorTask::Flush },
        ),
{
    match check_code(code, ErrorTask::Flush) {
        None => Ok(()),
        Some(err) => Err(err),
    }
}

/// The atom count cache after one probe outcome is recorded: a filled cache
/// is terminal (`Uncomputed -> Computed(n)` is one-way), a successful probe
/// fills it, and a failed probe leaves it unfilled, to be re-attempted.
pub open spec fn cache_after_probe(cache: Option<usize>, code: ErrorCode, value: i32) -> Option<
    usize,
> {
    match cache {
        Some(n) => Some(n),
        None => if code is ExdrOk {
            Some(value as usize)
        } else {
            None
        },
    }
}

/// What recording a probe outcome returns to the caller: the cached count
/// when one exists (without consulting the probe), the probed count on a
/// successful probe, and the status wrapped under the atom-count task on a
/// failed one.
pub open spec fn probe_outcome(cache: Option<usize>, code: ErrorCode, value: i32) -> Result<
    usize,
    Error,
> {
    match cache {
        Some(n) => Ok(n),
        None => if code is ExdrOk {
            Ok(value as usize)
        } else {
            Err(Error::CApiError { code, task: ErrorTask::ReadNumAtoms })
        },
    }
}

/// The atom count cache after a whole sequence of recorded probe outcomes.
pub open spec fn cache_after_probes(cache: Option<usize>, probes: Seq<(ErrorCode, i32)>) -> Option<
    usize,
>
    decreases probes.len(),
{
    if probes.len() == 0 {
        cache
    } else {
        cache_after_probes(cache_after_probe(cache, probes[0].0, probes[0].1), probes.drop_first())
    }
}

/// A filled atom count cache never moves again, through any sequence of
/// further probe outcomes.
pub proof fn lemma_computed_cache_stays(n: usize, probes: Seq<(ErrorCode, i32)>)
    ensures
        cache_after_probes(Some(n), probes) == Some(n),
    decreases probes.len(),
{
    if probes.len() > 0 {
        lemma_computed_cache_stays(n, probes.drop_first());
    }
}

/// Atom count memoization: once a probe has succeeded with count `n`, every
/// later atom count resolution returns `n`, whatever further probe outcomes
/// report; the probe's result is needed at most once.
pub proof fn lemma_atom_count_memoized(n: usize, probes: Seq<(ErrorCode, i32)>)
    ensures
        cache_after_probes(Some(n), probes) == Some(n),
        forall|i: int|
            0 <= i < probes.len() ==> probe_outcome(
                cache_after_probes(Some(n), probes.take(i)),
                probes[i].0,
                probes[i].1,
            ) == Ok::<usize, Error>(n),
{
    lemma_computed_cache_stays(n, probes);
    assert forall|i: int| 0 <= i < probes.len() implies probe_outcome(
        cache_after_probes(Some(n), probes.take(i)),
        probes[i].0,
        probes[i].1,
    ) == Ok::<usize, Error>(n) by {
        lemma_computed_cache_stays(n, probes.take(i));
    }
}

/// The state of a trajectory over the compressed-coordinate container
/// variant: per-frame step, time, box and lossily compressed coordinates
/// with a stored precision scalar.
pub struct XTCTrajectory {
    path: String,
    mode: FileMode,
    /// The atom count cache: `None` until a probe succeeds, then permanently
    /// the probed count. A failed probe is not cached; every call after a
    /// failure re-attempts the probe.
    num_atoms: Option<usize>,
    /// The compression precision, as a scalar bit pattern, updated by each
    /// successful read.
    precision: u32,
}

impl XTCTrajectory {
    /// The path the trajectory was opened with.
    pub closed spec fn spec_path(self) -> Seq<char> {
        self.path@
    }

    /// The mode the trajectory was opened with.
    pub closed spec fn spec_mode(self) -> FileMode {
        self.mode
    }

    /// The cached atom count, if a probe has succeeded.
    pub closed spec fn spec_num_atoms(self) -> Option<usize> {
        self.num_atoms
    }

    /// The stored compression precision bit pattern.
    pub closed spec fn spec_precision(self) -> u32 {
        self.precision
    }

    /// Construct the state for a freshly opened handle. `opened` says
    /// whether the native open primitive returned a resource; when it did
    /// not, the only diagnosis the native layer offers is the failure
    /// itself, reported with the requested path and mode.
    pub fn open(path: String, mode: FileMode, opened: bool) -> (r: Result<XTCTrajectory, Error>)
        ensures
            opened ==> (r matches Ok(t) && t.spec_path() == path@ && t.spec_mode() == mode
                && t.spec_num_atoms() is None && t.spec_precision() == DEFAULT_PRECISION_BITS),
            !opened ==> r == Err::<XTCTrajectory, Error>(Error::CouldNotOpen { path, mode }),
    {
        if opened {
            Ok(
                XTCTrajectory {
                    path,
                    mode,
                    num_atoms: None,
                    precision: DEFAULT_PRECISION_BITS,
                },
            )
        } else {
            Err(Error::CouldNotOpen { path, mode })
        }
    }

    /// Construct the state for a handle opened in read mode.
    pub fn open_read(path: String, opened: bool) -> (r: Result<XTCTrajectory, Error>)
        ensures
            opened ==> (r matches Ok(t) && t.spec_path() == path@ && t.spec_mode()
                == FileMode::Read && t.spec_num_atoms() is None && t.spec_precision()
                == DEFAULT_PRECISION_BITS),
            !opened ==> r == Err::<XTCTrajectory, Error>(
                Error::CouldNotOpen { path, mode: FileMode::Read },
            ),
    {
        Self::open(path, FileMode::Read, opened)
    }

    /// Construct the state for a handle opened in append mode.
    pub fn open_append(path: String, opened: bool) -> (r: Result<XTCTrajectory, Error>)
        ensures
            opened ==> (r matches Ok(t) && t.spec_path() == path@ && t.spec_mode()
                == FileMode::Append && t.spec_num_atoms() is None && t.spec_precision()
                == DEFAULT_PRECISION_BITS),
            !opened ==> r == Err::<XTCTrajectory, Error>(
                Error::CouldNotOpen { path, mode: FileMode::Append },
            ),
    {
        Self::open(path, FileMode::Append, opened)
    }

    /// Construct the state for a handle opened in write mode.
    pub fn open_write(path: String, opened: bool) -> (r: Result<XTCTrajectory, Error>)
        ensures
            opened ==> (r matches Ok(t) && t.spec_path() == path@ && t.spec_mode()
                == FileMode::Write && t.spec_num_atoms() is None && t.spec_precision()
                == DEFAULT_PRECISION_BITS),
            !opened ==> r == Err::<XTCTrajectory, Error>(
                Error::CouldNotOpen { path, mode: FileMode::Write },
            ),
    {
        Self::open(path, FileMode::Write, opened)
    }

    /// The cached atom count; `None` asks the caller to run the native probe
    /// (keyed by the trajectory's path) and report its outcome through
    /// [`Self::record_num_atoms`]. Once the cache is filled, no further
    /// probe is ever needed.
    pub fn cached_num_atoms(&self) -> (r: Option<usize>)
        ensures
            r == self.spec_num_atoms(),
    {
        self.num_atoms
    }

    /// Record the outcome of a native atom-count probe. On success the cache
    /// moves, permanently, to the probed count; a probe outcome reported
    /// after that is ignored in favour of the cached count. On failure the
    /// cache is left unfilled (the probe is re-attempted on the next call)
    /// and the status is wrapped under the atom-count task.
    pub fn record_num_atoms(&mut self, code: ErrorCode, value: i32) -> (r: Result<usize, Error>)
        requires
            code is ExdrOk ==> value >= 0,
        ensures
            old(self).spec_num_atoms() matches Some(n) ==> r == Ok::<usize, Error>(n) && *final(self) == *old(self),
            old(self).spec_num_atoms() is None && code is ExdrOk ==> r == Ok::<usize, Error>(
                value as usize,
            ) && final(self).spec_num_atoms() == Some(value as usize),
            old(self).spec_num_atoms() is None && !(code is ExdrOk) ==> r == Err::<usize, Error>(
                Error::CApiError { code, task: ErrorTask::ReadNumAtoms },
            ) && *final(self) == *old(self),
            r == probe_outcome(old(self).spec_num_atoms(), code, value),
            final(self).spec_num_atoms() == cache_after_probe(
                old(self).spec_num_atoms(),
                code,
                value,
            ),
            final(self).spec_path() == old(self).spec_path(),
            final(self).spec_mode() == old(self).spec_mode(),
            final(self).spec_precision() == old(self).spec_precision(),
    {
        match self.num_atoms {
            Some(n) => Ok(n),
            None => {
                match check_code(code, ErrorTask::ReadNumAtoms) {
                    Some(err) => Err(err),
                    None => {
                        let n = value as usize;
                        self.num_atoms = Some(n);
                        Ok(n)
                    },
                }
            },
        }
    }

    /// The precision bit pattern handed to the native decode, which may
    /// update it.
    pub fn precision_bits(&self) -> (r: u32)
        ensures
            r == self.spec_precision(),
    {
        self.precision
    }

    /// Apply the outcome of a native decode. On a failing status the frame
    /// and the state are untouched and the status is wrapped under the read
    /// task. On success the decoded step, time and box are copied into the
    /// frame (the coordinates were decoded into the frame's buffer already)
    /// and the stored precision is updated; a decoded step that does not fit
    /// the frame's step representation is a distinct failure, reported after
    /// the scalar payloads were applied, never silently truncated.
    pub fn finish_read(
        &mut self,
        frame: &mut Frame,
        code: ErrorCode,
        step: i32,
        time: u32,
        box_vector: [Triplet; 3],
        precision: u32,
    ) -> (r: Result<(), Error>)
        ensures
            !(code is ExdrOk) ==> r == Err::<(), Error>(
                Error::CApiError { code, task: ErrorTask::Read },
            ) && *final(self) == *old(self) && final(frame)@ == old(frame)@,
            code is ExdrOk ==> final(self).spec_precision() == precision && final(frame).time == time && final(frame).box_vector == box_vector && final(frame).coords@ == old(frame).coords@,
            code is ExdrOk && step >= 0 ==> r is Ok && final(frame).step == step as usize,
            code is ExdrOk && step < 0 ==> r == Err::<(), Error>(
                Error::StepSizeOutOfRange(step),
            ) && final(frame).step == old(frame).step,
            final(self).spec_path() == old(self).spec_path(),
            final(self).spec_mode() == old(self).spec_mode(),
            final(self).spec_num_atoms() == old(self).spec_num_atoms(),
    {
        match check_code(code, ErrorTask::Read) {
            Some(err) => Err(err),
            None => {
                self.precision = precision;
                frame.time = time;
                frame.box_vector = box_vector;
                if step >= 0 {
                    frame.step = step as usize;
                    Ok(())
                } else {
                    Err(Error::StepSizeOutOfRange(step))
                }
            },
        }
    }
}

/// The state of a trajectory over the extended container variant: per-frame
/// step, time, lambda scalar, box and uncompressed coordinates, with
/// optional velocity/force channels.
pub struct TRRTrajectory {
    path: String,
    mode: FileMode,
    /// The atom count cache: `None` until a probe succeeds, then permanently
    /// the probed count. A failed probe is not cached; every call after a
    /// failure re-attempts the probe.
    num_atoms: Option<usize>,
}

impl TRRTrajectory {
    /// The path the trajectory was opened with.
    pub closed spec fn spec_path(self) -> Seq<char> {
        self.path@
    }

    /// The mode the trajectory was opened with.
    pub closed spec fn spec_mode(self) -> FileMode {
        self.mode
    }

    /// The cached atom count, if a probe has succeeded.
    pub closed spec fn spec_num_atoms(self) -> Option<usize> {
        self.num_atoms
    }

    /// Construct the state for a freshly opened handle; see
    /// [`XTCTrajectory::open`].
    pub fn open(path: String, mode: FileMode, opened: bool) -> (r: Result<TRRTrajectory, Error>)
        ensures
            opened ==> (r matches Ok(t) && t.spec_path() == path@ && t.spec_mode() == mode
                && t.spec_num_atoms() is None),
            !opened ==> r == Err::<TRRTrajectory, Error>(Error::CouldNotOpen { path, mode }),
    {
        if opened {
            Ok(TRRTrajectory { path, mode, num_atoms: None })
        } else {
            Err(Error::CouldNotOpen { path, mode })
        }
    }

    /// Construct the state for a handle opened in read mode.
    pub fn open_read(path: String, opened: bool) -> (r: Result<TRRTrajectory, Error>)
        ensures
            opened ==> (r matches Ok(t) && t.spec_path() == path@ && t.spec_mode()
                == FileMode::Read && t.spec_num_atoms() is None),
            !opened ==> r == Err::<TRRTrajectory, Error>(
                Error::CouldNotOpen { path, mode: FileMode::Read },
            ),
    {
        Self::open(path, FileMode::Read, opened)
    }

    /// Construct the state for a handle opened in append mode.
    pub fn open_append(path: String, opened: bool) -> (r: Result<TRRTrajectory, Error>)
        ensures
            opened ==> (r matches Ok(t) && t.spec_path() == path@ && t.spec_mode()
                == FileMode::Append && t.spec_num_atoms() is None),
            !opened ==> r == Err::<TRRTrajectory, Error>(
                Error::CouldNotOpen { path, mode: FileMode::Append },
            ),
    {
        Self::open(path, FileMode::Append, opened)
    }

    /// Construct the state for a handle opened in write mode.
    pub fn open_write(path: String, opened: bool) -> (r: Result<TRRTrajectory, Error>)
        ensures
            opened ==> (r matches Ok(t) && t.spec_path() == path@ && t.spec_mode()
                == FileMode::Write && t.spec_num_atoms() is None),
            !opened ==> r == Err::<TRRTrajectory, Error>(
                Error::CouldNotOpen { path, mode: FileMode::Write },
            ),
    {
        Self::open(path, FileMode::Write, opened)
    }

    /// The cached atom count; see [`XTCTrajectory::cached_num_atoms`].
    pub fn cached_num_atoms(&self) -> (r: Option<usize>)
        ensures
            r == self.spec_num_atoms(),
    {
        self.num_atoms
    }

    /// Record the outcome of a native atom-count probe; see
    /// [`XTCTrajectory::record_num_atoms`].
    pub fn record_num_atoms(&mut self, code: ErrorCode, value: i32) -> (r: Result<usize, Error>)
        requires
            code is ExdrOk ==> value >= 0,
        ensures
            old(self).spec_num_atoms() matches Some(n) ==> r == Ok::<usize, Error>(n) && *final(self) == *old(self),
            old(self).spec_num_atoms() is None && code is ExdrOk ==> r == Ok::<usize, Error>(
                value as usize,
            ) && final(self).spec_num_atoms() == Some(value as usize),
            old(self).spec_num_atoms() is None && !(code is ExdrOk) ==> r == Err::<usize, Error>(
                Error::CApiError { code, task: ErrorTask::ReadNumAtoms },
            ) && *final(self) == *old(self),
            r == probe_outcome(old(self).spec_num_atoms(), code, value),
            final(self).spec_num_atoms() == cache_after_probe(
                old(self).spec_num_atoms(),
                code,
                value,
            ),
            final(self).spec_path() == old(self).spec_path(),
            final(self).spec_mode() == old(self).spec_mode(),
    {
        match self.num_atoms {
            Some(n) => Ok(n),
            None => {
                match check_code(code, ErrorTask::ReadNumAtoms) {
                    Some(err) => Err(err),
                    None => {
                        let n = value as usize;
                        self.num_atoms = Some(n);
                        Ok(n)
                    },
                }
            },
        }
    }

    /// Apply the outcome of a native decode; see
    /// [`XTCTrajectory::finish_read`]. The extended variant stores no
    /// precision; the decoded lambda scalar is not part of the frame record
    /// and is discarded by the shell.
    pub fn finish_read(
        &mut self,
        frame: &mut Frame,
        code: ErrorCode,
        step: i32,
        time: u32,
        box_vector: [Triplet; 3],
    ) -> (r: Result<(), Error>)
        ensures
            !(code is ExdrOk) ==> r == Err::<(), Error>(
                Error::CApiError { code, task: ErrorTask::Read },
            ) && *final(self) == *old(self) && final(frame)@ == old(frame)@,
            code is ExdrOk ==> final(frame).time == time && final(frame).box_vector == box_vector
                && final(frame).coords@ == old(frame).coords@,
            code is ExdrOk && step >= 0 ==> r is Ok && final(frame).step == step as usize,
            code is ExdrOk && step < 0 ==> r == Err::<(), Error>(
                Error::StepSizeOutOfRange(step),
            ) && final(frame).step == old(frame).step,
            *final(self) == *old(self),
    {
        match check_code(code, ErrorTask::Read) {
            Some(err) => Err(err),
            None => {
                frame.time = time;
                frame.box_vector = box_vector;
                if step >= 0 {
                    frame.step = step as usize;
                    Ok(())
                } else {
                    Err(Error::StepSizeOutOfRange(step))
                }
            },
        }
    }
}

} // verus!
