//! CPU-side staging of buffer contents and their mirror on the device.
//!
//! A [`GpuBuffer`] owns the CPU staging contents together with a model of
//! the device-resident copy: the contents last written to the device and a
//! count of the device writes performed.  The host performs the actual
//! queue writes; it does so exactly when [`GpuBuffer::upload`] reports a
//! write, so the model's write count is the number of device writes.

use vstd::prelude::*;

use crate::error::NotReady;

verus! {

/// The mathematical state of a staged buffer.
#[verifier::ext_equal]
pub ghost struct GpuBufferModel<T> {
    /// The CPU-side staging contents.
    pub staging: Seq<T>,
    /// The device-resident copy; `None` until the first upload.
    pub device: Option<Seq<T>>,
    /// Whether the staging contents changed since the last upload.
    pub dirty: bool,
    /// How many device writes have been performed.
    pub device_writes: int,
    /// How many elements the device allocation can hold: it grows exactly
    /// when an upload finds it insufficient, and never shrinks.
    pub device_capacity: int,
}

/// A buffer stage: CPU staging contents plus the device mirror.
pub struct GpuBuffer<T> {
    staging: Vec<T>,
    device: Option<Vec<T>>,
    dirty: bool,
    device_writes: u64,
    device_capacity: usize,
}

impl<T> View for GpuBuffer<T> {
    type V = GpuBufferModel<T>;

    closed spec fn view(&self) -> GpuBufferModel<T> {
        GpuBufferModel {
            staging: self.staging@,
            device: match self.device {
                Option::Some(d) => Option::Some(d@),
                Option::None => Option::None,
            },
            dirty: self.dirty,
            device_writes: self.device_writes as int,
            device_capacity: self.device_capacity as int,
        }
    }
}

/// What `write` does to the model: replace the staging contents and mark
/// them changed.
pub open spec fn spec_write<T>(m: GpuBufferModel<T>, contents: Seq<T>) -> GpuBufferModel<T> {
    GpuBufferModel { staging: contents, dirty: true, ..m }
}

/// What `upload` does to the model: mirror changed staging contents to the
/// device, counting one device write and growing the device allocation if
/// it cannot hold them; do nothing when nothing changed.
pub open spec fn spec_upload<T>(m: GpuBufferModel<T>) -> GpuBufferModel<T> {
    if m.dirty {
        GpuBufferModel {
            device: Option::Some(m.staging),
            dirty: false,
            device_writes: m.device_writes + 1,
            device_capacity: if m.staging.len() > m.device_capacity {
                m.staging.len() as int
            } else {
                m.device_capacity
            },
            ..m
        }
    } else {
        m
    }
}

/// What staging fresh contents does when the writer compares first:
/// nothing when they equal what is already staged, an ordinary write
/// otherwise.  The per-frame prepare phase stages through this, so a
/// frame whose contents did not change marks nothing dirty.
pub open spec fn spec_restage<T>(m: GpuBufferModel<T>, contents: Seq<T>) -> GpuBufferModel<T> {
    if contents == m.staging {
        m
    } else {
        spec_write(m, contents)
    }
}

/// A device copy may be read exactly when it exists and is not stale.
pub open spec fn spec_device_ready<T>(m: GpuBufferModel<T>) -> bool {
    !m.dirty && m.device is Some
}

/// The state of a buffer that has never staged anything.
pub open spec fn spec_empty_buffer<T>() -> GpuBufferModel<T> {
    GpuBufferModel {
        staging: Seq::empty(),
        device: Option::None,
        dirty: false,
        device_writes: 0,
        device_capacity: 0,
    }
}

/// An element-for-element copy of a vector of plain values.
pub(crate) fn copy_contents<T: Copy>(v: &Vec<T>) -> (r: Vec<T>)
    ensures
        r@ == v@,
{
    let mut r: Vec<T> = Vec::new();
    let mut i: usize = 0;
    while i < v.len()
        invariant
            i <= v.len(),
            r@ == v@.subrange(0, i as int),
        decreases v.len() - i,
    {
        r.push(v[i]);
        i = i + 1;
    }
    assert(r@ == v@);
    r
}

impl<T: Copy> GpuBuffer<T> {
    /// An empty stage: nothing staged, nothing on the device.
    pub fn new() -> (b: Self)
        ensures
            b@ == spec_empty_buffer::<T>(),
    {
        GpuBuffer {
            staging: Vec::new(),
            device: None,
            dirty: false,
            device_writes: 0,
            device_capacity: 0,
        }
    }

    /// Replace the staging contents.  The device copy is untouched and
    /// becomes stale until the next upload.
    pub fn write(&mut self, contents: Vec<T>)
        ensures
            final(self)@ == spec_write(old(self)@, contents@),
    {
        self.staging = contents;
        self.dirty = true;
    }

    /// Mirror the staging contents to the device if they changed since the
    /// last upload; otherwise do nothing.  Returns whether a device write
    /// was performed.
    pub fn upload(&mut self) -> (wrote: bool)
        requires
            old(self)@.device_writes < u64::MAX,
        ensures
            final(self)@ == spec_upload(old(self)@),
            wrote == old(self)@.dirty,
    {
        if self.dirty {
            let mirror = copy_contents(&self.staging);
            if self.staging.len() > self.device_capacity {
                self.device_capacity = self.staging.len();
            }
            self.device = Some(mirror);
            self.dirty = false;
            self.device_writes = self.device_writes + 1;
            true
        } else {
            false
        }
    }

    /// How many elements the device allocation can hold.
    pub fn device_capacity(&self) -> (n: usize)
        ensures
            n as int == self@.device_capacity,
    {
        self.device_capacity
    }

    /// The device-resident contents, or [`NotReady`] while there has been
    /// no upload or the staging contents changed since the last one.
    pub fn device_contents(&self) -> (r: Result<&Vec<T>, NotReady>)
        ensures
            r is Ok <==> spec_device_ready(self@),
            r is Ok ==> self@.device == Option::Some(r->Ok_0@),
    {
        if self.dirty {
            Err(NotReady)
        } else {
            match &self.device {
                Some(d) => Ok(d),
                None => Err(NotReady),
            }
        }
    }

    /// The CPU-side staging contents.
    pub fn staging(&self) -> (r: &Vec<T>)
        ensures
            r@ == self@.staging,
    {
        &self.staging
    }

    /// How many device writes this stage has performed.
    pub fn device_writes(&self) -> (n: u64)
        ensures
            n as int == self@.device_writes,
    {
        self.device_writes
    }
}

/// Law: `upload` is idempotent.  A second upload with unchanged staging
/// contents leaves the whole state — the device write count included —
/// exactly as the first upload left it.
pub proof fn lemma_upload_idempotent<T>(m: GpuBufferModel<T>)
    ensures
        spec_upload(spec_upload(m)) == spec_upload(m),
{
}

/// Law: preparing unchanged contents performs no device write.  On a
/// buffer with nothing pending, restaging exactly what is staged and
/// uploading leaves the whole state — the device write count included —
/// as it was.
pub proof fn lemma_unchanged_restage_no_write<T>(m: GpuBufferModel<T>, contents: Seq<T>)
    requires
        !m.dirty,
        contents == m.staging,
    ensures
        spec_upload(spec_restage(m, contents)) == m,
{
}

} // verus!
