use vstd::prelude::*;

verus! {

use crate::ui::Backend;

const IN_MEMORY_BACKEND_ADC_SIZE: usize = 4;
const IN_MEMORY_BACKEND_INPUT_SIZE: usize = 16;

/// A backend that replays fixed buffers of samples, each read taking the
/// next one and wrapping around to the first after the last.
pub struct InMemoryBackend {
    pub adc_buffer: [u16; 4],
    pub adc_buffer_pos: usize,
    pub input_buffer: [bool; 16],
    pub input_buffer_pos: usize,
}

/// Where a read at cursor `pos` of a buffer of `len` items takes its item.
pub open spec fn replay_slot(pos: usize, len: usize) -> int {
    if pos < len { pos as int } else { 0 }
}

/// The cursor after a read at cursor `pos` of a buffer of `len` items.
pub open spec fn replay_next(pos: usize, len: usize) -> usize {
    if pos < len { (pos + 1) as usize } else { 1 }
}

impl Backend for InMemoryBackend {
    open spec fn next_input(&self) -> bool {
        self.input_buffer@[replay_slot(self.input_buffer_pos, 16)]
    }

    open spec fn after_input(&self) -> InMemoryBackend {
        InMemoryBackend { input_buffer_pos: replay_next(self.input_buffer_pos, 16), ..*self }
    }

    open spec fn next_adc(&self) -> u16 {
        self.adc_buffer@[replay_slot(self.adc_buffer_pos, 4)]
    }

    open spec fn after_adc(&self) -> InMemoryBackend {
        InMemoryBackend { adc_buffer_pos: replay_next(self.adc_buffer_pos, 4), ..*self }
    }

    /// The replay buffers address no channels: nothing to rewind.
    open spec fn rewound(&self) -> InMemoryBackend {
        *self
    }

    fn read_adc(&mut self) -> (r: u16) {
        if self.adc_buffer_pos < IN_MEMORY_BACKEND_ADC_SIZE {
            let data = self.adc_buffer[self.adc_buffer_pos];
            self.adc_buffer_pos += 1;
            data
        } else {
            self.adc_buffer_pos = 1;
            self.adc_buffer[0]
        }
    }

    fn read_input(&mut self) -> (r: bool) {
        if self.input_buffer_pos < IN_MEMORY_BACKEND_INPUT_SIZE {
            let data = self.input_buffer[self.input_buffer_pos];
            self.input_buffer_pos += 1;
            data
        } else {
            self.input_buffer_pos = 1;
            self.input_buffer[0]
        }
    }

    fn rewind(&mut self) {
    }
}

impl InMemoryBackend {
    pub fn new() -> (r: InMemoryBackend)
        ensures
            r.adc_buffer@ == seq![0u16; 4],
            r.adc_buffer_pos == 0,
            r.input_buffer@ == seq![false; 16],
            r.input_buffer_pos == 0,
    {
        let r = InMemoryBackend {
            adc_buffer: [0; IN_MEMORY_BACKEND_ADC_SIZE],
            adc_buffer_pos: 0,
            input_buffer: [false; IN_MEMORY_BACKEND_INPUT_SIZE],
            input_buffer_pos: 0,
        };
        assert(r.adc_buffer@ =~= seq![0u16; 4]);
        assert(r.input_buffer@ =~= seq![false; 16]);
        r
    }

    /// Puts `data` at the start of the analog buffer; the rest and the
    /// cursor stay.
    pub fn set_adc_buffer(&mut self, data: &[u16])
        requires
            data@.len() <= 4,
        ensures
            final(self).adc_buffer@ == data@ + old(self).adc_buffer@.subrange(
                data@.len() as int,
                4,
            ),
            final(self).adc_buffer_pos == old(self).adc_buffer_pos,
            final(self).input_buffer == old(self).input_buffer,
            final(self).input_buffer_pos == old(self).input_buffer_pos,
    {
        let mut i: usize = 0;
        while i < data.len()
            invariant
                i <= data@.len() <= 4,
                self.adc_buffer@ == data@.subrange(0, i as int) + old(self).adc_buffer@.subrange(
                    i as int,
                    4,
                ),
                self.adc_buffer_pos == old(self).adc_buffer_pos,
                self.input_buffer == old(self).input_buffer,
                self.input_buffer_pos == old(self).input_buffer_pos,
            decreases data@.len() - i,
        {
            self.adc_buffer[i] = data[i];
            assert(self.adc_buffer@ =~= data@.subrange(0, i + 1) + old(self).adc_buffer@.subrange(
                i + 1,
                4,
            ));
            i += 1;
        }
        assert(data@.subrange(0, i as int) =~= data@);
    }

    /// Puts `data` at the start of the digital buffer; the rest and the
    /// cursor stay.
    pub fn set_input_buffer(&mut self, data: &[bool])
        requires
            data@.len() <= 16,
        ensures
            final(self).input_buffer@ == data@ + old(self).input_buffer@.subrange(
                data@.len() as int,
                16,
            ),
            final(self).input_buffer_pos == old(self).input_buffer_pos,
            final(self).adc_buffer == old(self).adc_buffer,
            final(self).adc_buffer_pos == old(self).adc_buffer_pos,
    {
        let mut i: usize = 0;
        while i < data.len()
            invariant
                i <= data@.len() <= 16,
                self.input_buffer@ == data@.subrange(0, i as int)
                    + old(self).input_buffer@.subrange(i as int, 16),
                self.input_buffer_pos == old(self).input_buffer_pos,
                self.adc_buffer == old(self).adc_buffer,
                self.adc_buffer_pos == old(self).adc_buffer_pos,
            decreases data@.len() - i,
        {
            self.input_buffer[i] = data[i];
            assert(self.input_buffer@ =~= data@.subrange(0, i + 1)
                + old(self).input_buffer@.subrange(i + 1, 16));
            i += 1;
        }
        assert(data@.subrange(0, i as int) =~= data@);
    }
}

} // verus!
