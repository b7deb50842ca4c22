//! An in-memory digital I/O port.
//!
//! The port holds a 90-channel input image and a 90-channel output image
//! as plain booleans and mirrors the hardware port's interface: scoped
//! bit, boolean and packed-byte reads of the inputs, the same writes of
//! the outputs, and the lifecycle calls.  It stands in for the real
//! fieldbus coupler wherever no hardware is present, and gives tests a
//! hardware side they can set up and inspect.

use vstd::prelude::*;

use crate::bits::pack_byte;

verus! {

/// The fixed number of input channels and of output channels.
pub const LOOPBACK_BITS: u32 = 90;

/// Error values the port reports.
#[derive(Debug)]
pub enum Error {
    /// The function is not implemented.
    Unimplemented,
    /// The specified device was not found.
    DeviceNotFound,
    /// A generic operation error.
    OperationFailed(String),
}

/// The in-memory port: one input image, one output image.
pub struct KBus {
    input_data: Vec<bool>,
    output_data: Vec<bool>,
}

impl KBus {
    /// The input image, one boolean per channel.
    pub closed spec fn inputs(&self) -> Seq<bool> {
        self.input_data@
    }

    /// The output image, one boolean per channel.
    pub closed spec fn outputs(&self) -> Seq<bool> {
        self.output_data@
    }

    /// Both images always hold exactly [`LOOPBACK_BITS`] channels.
    pub closed spec fn wf(&self) -> bool {
        &&& self.input_data@.len() == LOOPBACK_BITS
        &&& self.output_data@.len() == LOOPBACK_BITS
    }

    /// Opens the port with both images all false.
    pub fn new() -> (r: Result<KBus, Error>)
        ensures
            match r {
                Ok(k) => {
                    &&& k.wf()
                    &&& k.inputs() == Seq::new(LOOPBACK_BITS as nat, |i: int| false)
                    &&& k.outputs() == Seq::new(LOOPBACK_BITS as nat, |i: int| false)
                },
                Err(_) => false,
            },
    {
        let input_data = all_false_image();
        let output_data = all_false_image();
        proof {
            assert(input_data@ =~= Seq::new(LOOPBACK_BITS as nat, |i: int| false));
            assert(output_data@ =~= Seq::new(LOOPBACK_BITS as nat, |i: int| false));
        }
        Ok(KBus { input_data, output_data })
    }

    /// Sets the application state to "Running".
    pub fn start(&mut self) -> (r: Result<(), Error>)
        ensures
            *final(self) == *old(self),
            r is Ok,
    {
        Ok(())
    }

    /// Sets the application state to "Stopped".
    pub fn stop(&mut self) -> (r: Result<(), Error>)
        ensures
            *final(self) == *old(self),
            r is Ok,
    {
        Ok(())
    }

    /// Sets the application state to "Unconfigured".
    pub fn reset(&mut self) -> (r: Result<(), Error>)
        ensures
            *final(self) == *old(self),
            r is Ok,
    {
        Ok(())
    }

    /// One bus cycle.  The in-memory port has no wire to exchange on, so
    /// the images stay as they are.
    pub fn trigger_bus_cycle(&mut self) -> (r: Result<(), Error>)
        ensures
            *final(self) == *old(self),
            r is Ok,
    {
        Ok(())
    }

    /// The fixed input and output sizes, in channels.
    pub fn io_sizes(&mut self) -> (r: Result<(u32, u32), Error>)
        ensures
            *final(self) == *old(self),
            r == Result::<(u32, u32), Error>::Ok((LOOPBACK_BITS, LOOPBACK_BITS)),
    {
        Ok((LOOPBACK_BITS, LOOPBACK_BITS))
    }

    /// Writes the low bit of `*data` to output channel `bit_offset`;
    /// an offset at or past the output size is refused.
    pub fn write_bit(&mut self, bit_offset: u32, data: &mut u8) -> (r: Result<(), Error>)
        requires
            old(self).wf(),
        ensures
            final(self).wf(),
            *final(data) == *old(data),
            final(self).inputs() == old(self).inputs(),
            bit_offset < LOOPBACK_BITS ==> {
                &&& r is Ok
                &&& final(self).outputs() == old(self).outputs().update(
                    bit_offset as int,
                    *old(data) & 1 != 0,
                )
            },
            bit_offset >= LOOPBACK_BITS ==> {
                &&& r matches Err(Error::OperationFailed(m)) && m@ == "Offset out of range"@
                &&& final(self).outputs() == old(self).outputs()
            },
    {
        let value: bool = *data & 1 != 0;
        if bit_offset as usize >= self.output_data.len() {
            return Err(Error::OperationFailed("Offset out of range".to_owned()));
        }
        self.output_data[bit_offset as usize] = value;
        Ok(())
    }

    /// Writes `value` to output channel `bit_offset`; an offset at or
    /// past the output size is refused.
    pub fn write_bool(&mut self, bit_offset: u32, value: bool) -> (r: Result<(), Error>)
        requires
            old(self).wf(),
        ensures
            final(self).wf(),
            final(self).inputs() == old(self).inputs(),
            bit_offset < LOOPBACK_BITS ==> {
                &&& r is Ok
                &&& final(self).outputs() == old(self).outputs().update(
                    bit_offset as int,
                    value,
                )
            },
            bit_offset >= LOOPBACK_BITS ==> {
                &&& r matches Err(Error::OperationFailed(m)) && m@ == "Offset out of range"@
                &&& final(self).outputs() == old(self).outputs()
            },
    {
        if bit_offset as usize >= self.output_data.len() {
            return Err(Error::OperationFailed("Offset out of range".to_owned()));
        }
        self.output_data[bit_offset as usize] = value;
        Ok(())
    }

    /// Writes the bytes of `data` to the outputs from bit offset `offset`
    /// on, least-significant bit first; a write that would run past the
    /// output size is refused whole.
    pub fn write_bytes(&mut self, offset: u32, data: &[u8]) -> (r: Result<(), Error>)
        requires
            old(self).wf(),
        ensures
            final(self).wf(),
            final(self).inputs() == old(self).inputs(),
            offset + data@.len() * 8 <= LOOPBACK_BITS ==> {
                &&& r is Ok
                &&& final(self).outputs().len() == old(self).outputs().len()
                &&& forall|m: int|
                    0 <= m < LOOPBACK_BITS ==> final(self).outputs()[m] == if offset <= m
                        < offset + data@.len() * 8 {
                        (data@[(m - offset) / 8] >> (((m - offset) % 8) as u8)) & 1 == 1
                    } else {
                        old(self).outputs()[m]
                    }
            },
            offset + data@.len() * 8 > LOOPBACK_BITS ==> {
                &&& r matches Err(Error::OperationFailed(m)) && m@ == "Write exceeds buffer size"@
                &&& final(self).outputs() == old(self).outputs()
            },
    {
        let bit_offset = offset as usize;
        if (offset as u128) + (data.len() as u128) * 8 > self.output_data.len() as u128 {
            return Err(Error::OperationFailed("Write exceeds buffer size".to_owned()));
        }
        for i in 0..data.len()
            invariant
                self.wf(),
                self.input_data@ == old(self).input_data@,
                bit_offset == offset,
                bit_offset + data@.len() * 8 <= LOOPBACK_BITS,
                forall|m: int|
                    0 <= m < LOOPBACK_BITS ==> self.outputs()[m] == if bit_offset <= m
                        < bit_offset + i * 8 {
                        (data@[(m - bit_offset) / 8] >> (((m - bit_offset) % 8) as u8)) & 1
                            == 1
                    } else {
                        old(self).outputs()[m]
                    },
        {
            let byte: u8 = data[i];
            let byte_start: usize = bit_offset + i * 8;
            for j in 0..8usize
                invariant
                    self.wf(),
                    self.input_data@ == old(self).input_data@,
                    byte == data@[i as int],
                    byte_start == bit_offset + i * 8,
                    bit_offset + data@.len() * 8 <= LOOPBACK_BITS,
                    i < data@.len(),
                    bit_offset == offset,
                    forall|m: int|
                        0 <= m < LOOPBACK_BITS ==> self.outputs()[m] == if bit_offset <= m
                            < bit_offset + i * 8 + j {
                            (data@[(m - bit_offset) / 8] >> (((m - bit_offset) % 8) as u8))
                                & 1 == 1
                        } else {
                            old(self).outputs()[m]
                        },
            {
                let bit_value: bool = (byte >> (j as u8)) & 1 != 0;
                proof {
                    assert((byte >> (j as u8)) & 1 == 0 || (byte >> (j as u8)) & 1 == 1)
                        by (bit_vector);
                }
                let ghost prev = self.outputs();
                self.output_data[byte_start + j] = bit_value;
                proof {
                    let m0 = byte_start + j as int;
                    assert((m0 - bit_offset) / 8 == i && (m0 - bit_offset) % 8 == j) by (nonlinear_arith)
                        requires
                            m0 == bit_offset + i * 8 + j,
                            0 <= j < 8,
                            0 <= i,
                            0 <= bit_offset,
                    ;
                    assert forall|m: int| 0 <= m < LOOPBACK_BITS implies self.outputs()[m]
                        == if bit_offset <= m < bit_offset + i * 8 + (j + 1) {
                        (data@[(m - bit_offset) / 8] >> (((m - bit_offset) % 8) as u8)) & 1
                            == 1
                    } else {
                        prev[m]
                    } by {
                        if m == m0 {
                            assert(self.outputs()[m0] == ((data@[(m0 - bit_offset) / 8] >> ((
                            (m0 - bit_offset) % 8) as u8)) & 1 == 1));
                        } else {
                            assert(self.outputs()[m] == prev[m]);
                        }
                    }
                }
            }
        }
        Ok(())
    }

    /// Reads input channel `bit_offset` into `*data` as `0` or `1`; an
    /// offset at or past the input size is refused.
    pub fn read_bit(&mut self, bit_offset: u32, data: &mut u8) -> (r: Result<(), Error>)
        requires
            old(self).wf(),
        ensures
            *final(self) == *old(self),
            bit_offset < LOOPBACK_BITS ==> {
                &&& r is Ok
                &&& *final(data) == if old(self).inputs()[bit_offset as int] {
                    1u8
                } else {
                    0u8
                }
            },
            bit_offset >= LOOPBACK_BITS ==> {
                &&& r matches Err(Error::OperationFailed(m)) && m@ == "Offset out of range"@
                &&& *final(data) == *old(data)
            },
    {
        if bit_offset as usize >= self.input_data.len() {
            return Err(Error::OperationFailed("Offset out of range".to_owned()));
        }
        *data = if self.input_data[bit_offset as usize] {
            1
        } else {
            0
        };
        Ok(())
    }

    /// Reads input channel `bit_offset` into `*value`; an offset at or
    /// past the input size is refused.
    pub fn read_bool(&mut self, bit_offset: u32, value: &mut bool) -> (r: Result<(), Error>)
        requires
            old(self).wf(),
        ensures
            *final(self) == *old(self),
            bit_offset < LOOPBACK_BITS ==> {
                &&& r is Ok
                &&& *final(value) == old(self).inputs()[bit_offset as int]
            },
            bit_offset >= LOOPBACK_BITS ==> {
                &&& r matches Err(Error::OperationFailed(m)) && m@ == "Offset out of range"@
                &&& *final(value) == *old(value)
            },
    {
        if bit_offset as usize >= self.input_data.len() {
            return Err(Error::OperationFailed("Offset out of range".to_owned()));
        }
        *value = self.input_data[bit_offset as usize];
        Ok(())
    }

    /// Fills `data` with the packed input image from bit offset `offset`
    /// on: byte `i`, bit `j` carries input channel `offset + i*8 + j`,
    /// and positions past the input size read as zero.  An offset past
    /// the input size is refused.
    pub fn read_bytes(&mut self, offset: u32, data: &mut Vec<u8>) -> (r: Result<(), Error>)
        requires
            old(self).wf(),
            old(data)@.len() * 8 + LOOPBACK_BITS <= usize::MAX,
        ensures
            *final(self) == *old(self),
            final(data)@.len() == old(data)@.len(),
            offset <= LOOPBACK_BITS ==> {
                &&& r is Ok
                &&& forall|i: int, k: int|
                    #![trigger final(data)@[i] >> (k as u8)]
                    0 <= i < final(data)@.len() && 0 <= k < 8 ==> ((final(data)@[i] >> (
                    k as u8)) & 1 == 1) == (offset + i * 8 + k < LOOPBACK_BITS
                        && old(self).inputs()[offset + i * 8 + k])
            },
            offset > LOOPBACK_BITS ==> {
                &&& r matches Err(Error::OperationFailed(m)) && m@ == "Read exceeds buffer size"@
                &&& final(data)@ == old(data)@
            },
    {
        let bit_offset = offset as usize;
        if bit_offset > self.input_data.len() {
            return Err(Error::OperationFailed("Read exceeds buffer size".to_owned()));
        }
        let n = data.len();
        for i in 0..n
            invariant
                self == old(self),
                self.wf(),
                bit_offset == offset,
                bit_offset <= LOOPBACK_BITS,
                data@.len() == n,
                n * 8 + LOOPBACK_BITS <= usize::MAX,
                forall|i2: int, k: int|
                    #![trigger data@[i2] >> (k as u8)]
                    0 <= i2 < i && 0 <= k < 8 ==> ((data@[i2] >> (k as u8)) & 1 == 1) == (
                    bit_offset + i2 * 8 + k < LOOPBACK_BITS && self.inputs()[bit_offset + i2
                        * 8 + k]),
        {
            let byte = pack_byte(self.input_data.as_slice(), bit_offset + i * 8);
            data[i] = byte;
        }
        Ok(())
    }

    /// Sets input channel `bit_offset` to `value`, as a test or the
    /// surrounding process would rig the hardware side; an offset at or
    /// past the input size is refused.
    pub fn set_input_bit(&mut self, bit_offset: u32, value: bool) -> (r: Result<(), Error>)
        requires
            old(self).wf(),
        ensures
            final(self).wf(),
            final(self).outputs() == old(self).outputs(),
            bit_offset < LOOPBACK_BITS ==> {
                &&& r is Ok
                &&& final(self).inputs() == old(self).inputs().update(
                    bit_offset as int,
                    value,
                )
            },
            bit_offset >= LOOPBACK_BITS ==> {
                &&& r matches Err(Error::OperationFailed(m)) && m@ == "Offset out of range"@
                &&& final(self).inputs() == old(self).inputs()
            },
    {
        if bit_offset as usize >= self.input_data.len() {
            return Err(Error::OperationFailed("Offset out of range".to_owned()));
        }
        self.input_data[bit_offset as usize] = value;
        Ok(())
    }

    /// Reads output channel `bit_offset` back, as a test or the
    /// surrounding process would inspect the hardware side; an offset at
    /// or past the output size is refused.
    pub fn get_output_bit(&self, bit_offset: u32) -> (r: Result<bool, Error>)
        requires
            self.wf(),
        ensures
            bit_offset < LOOPBACK_BITS ==> r == Result::<bool, Error>::Ok(
                self.outputs()[bit_offset as int],
            ),
            bit_offset >= LOOPBACK_BITS ==> (r matches Err(Error::OperationFailed(m)) && m@
                == "Offset out of range"@),
    {
        if bit_offset as usize >= self.output_data.len() {
            return Err(Error::OperationFailed("Offset out of range".to_owned()));
        }
        Ok(self.output_data[bit_offset as usize])
    }

    /// Clears both images back to all false.
    pub fn reset_state(&mut self)
        requires
            old(self).wf(),
        ensures
            final(self).wf(),
            final(self).inputs() == Seq::new(LOOPBACK_BITS as nat, |i: int| false),
            final(self).outputs() == Seq::new(LOOPBACK_BITS as nat, |i: int| false),
    {
        self.input_data = all_false_image();
        self.output_data = all_false_image();
        proof {
            assert(self.inputs() =~= Seq::new(LOOPBACK_BITS as nat, |i: int| false));
            assert(self.outputs() =~= Seq::new(LOOPBACK_BITS as nat, |i: int| false));
        }
    }
}

/// A fresh all-false image of [`LOOPBACK_BITS`] channels.
fn all_false_image() -> (v: Vec<bool>)
    ensures
        v@.len() == LOOPBACK_BITS,
        forall|i: int| 0 <= i < v@.len() ==> !v@[i],
{
    let mut v: Vec<bool> = Vec::new();
    let n: usize = LOOPBACK_BITS as usize;
    for _j in 0..n
        invariant
            v@.len() == _j,
            forall|i: int| 0 <= i < v@.len() ==> !v@[i],
    {
        v.push(false);
    }
    v
}

} // verus!
