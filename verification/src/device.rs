//! Register-level logic of the AD9361 / FPGA fabric: gain modes, the audio DMA word format and
//! the RX CIC decimation rule.
use vstd::prelude::*;

use crate::text::{append_decimal, decimal_text, keyed_field, keyed_field_value, str_eq};

verus! {

// --- FPGA DMA controller register offsets ---
/// Starts, stops and resets the DMA engine.
pub const DMA_REG_CTRL: usize = 0x400;
/// Trigger register that starts a queued transfer.
pub const DMA_REG_START_TRANSFER: usize = 0x408;
/// Physical destination address of a transfer.
pub const DMA_REG_DEST_ADDRESS: usize = 0x410;
/// Transfer length minus one, in bytes.
pub const DMA_REG_X_LENGTH: usize = 0x418;
/// Interrupt mask register.
pub const DMA_REG_IRQ_MASK: usize = 0x80;
/// Interrupt status / clear register.
pub const DMA_REG_IRQ_PENDING: usize = 0x84;

/// Reserved physical DDR region the FPGA writes audio samples into.
pub const RAM_PHYS_ADDR: u32 = 0x1FC0_0000;

/// Samples per audio DMA transfer.
pub const MAX_AUDIO_SAMPLES: usize = 16384;

/// AD9361 minimum baseband sample rate without the internal FIR.
pub const AD9361_MIN_FS_NO_FIR: i64 = 2_083_333;

/// Gain control modes of the AD9361 receiver.
#[derive(Clone, Copy, Debug, PartialEq, Eq, Structural)]
pub enum GainMode {
    AgcSlow,
    AgcFast,
    Manual,
}

/// The driver attribute value of each gain mode.
pub open spec fn gain_mode_name(m: GainMode) -> Seq<char> {
    match m {
        GainMode::AgcSlow => "slow_attack"@,
        GainMode::AgcFast => "fast_attack"@,
        GainMode::Manual => "manual"@,
    }
}

/// The gain mode a driver attribute value denotes, if any.
pub open spec fn gain_mode_from_name(s: Seq<char>) -> Option<GainMode> {
    if s == "slow_attack"@ {
        Some(GainMode::AgcSlow)
    } else if s == "fast_attack"@ {
        Some(GainMode::AgcFast)
    } else if s == "manual"@ {
        Some(GainMode::Manual)
    } else {
        None
    }
}

impl GainMode {
    /// The driver attribute value of the mode.
    pub fn as_str(&self) -> (r: &'static str)
        ensures
            r@ == gain_mode_name(*self),
    {
        match self {
            GainMode::AgcSlow => "slow_attack",
            GainMode::AgcFast => "fast_attack",
            GainMode::Manual => "manual",
        }
    }

    /// Parses a driver attribute value; any other text is refused with a message naming it.
    pub fn parse(s: &str) -> (r: Result<GainMode, String>)
        ensures
            gain_mode_from_name(s@) is Some <==> r is Ok,
            r matches Ok(m) ==> Some(m) == gain_mode_from_name(s@),
            r matches Err(e) ==> e@ == "Unknown gain control mode: "@ + s@,
    {
        if str_eq(s, "slow_attack") {
            Ok(GainMode::AgcSlow)
        } else if str_eq(s, "fast_attack") {
            Ok(GainMode::AgcFast)
        } else if str_eq(s, "manual") {
            Ok(GainMode::Manual)
        } else {
            let mut msg = "Unknown gain control mode: ".to_owned();
            msg.append(s);
            Err(msg)
        }
    }
}

impl std::str::FromStr for GainMode {
    type Err = String;

    fn from_str(s: &str) -> (r: Result<Self, Self::Err>)
        ensures
            gain_mode_from_name(s@) is Some <==> r is Ok,
            r matches Ok(m) ==> Some(m) == gain_mode_from_name(s@),
            r matches Err(e) ==> e@ == "Unknown gain control mode: "@ + s@,
    {
        GainMode::parse(s)
    }
}

/// Every gain mode's attribute value parses back to that mode.
pub proof fn lemma_gain_mode_name_round_trip(m: GainMode)
    ensures
        gain_mode_from_name(gain_mode_name(m)) == Some(m),
{
    reveal_strlit("slow_attack");
    reveal_strlit("fast_attack");
    reveal_strlit("manual");
    assert("slow_attack"@.len() == 11);
    assert("manual"@.len() == 6);
    assert("slow_attack"@[0] != "fast_attack"@[0]);
}

// --- Audio DMA word format ---

/// In-phase half of a packed DMA word: the low 16 bits, read as a signed sample.
pub open spec fn word_i(w: u32) -> i16 {
    (w & 0xFFFF) as i16
}

/// Quadrature half of a packed DMA word: the high 16 bits, read as a signed sample.
pub open spec fn word_q(w: u32) -> i16 {
    ((w >> 16) & 0xFFFF) as i16
}

/// The word the fabric's IQ packer emits for one sample: Q in the high half, I in the low half.
pub open spec fn packed_iq_word(i: i16, q: i16) -> u32 {
    ((q as u16 as u32) << 16) | (i as u16 as u32)
}

/// Unpacking recovers exactly the I and Q samples that were packed.
pub proof fn lemma_unpack_inverts_pack(i: i16, q: i16)
    ensures
        word_i(packed_iq_word(i, q)) == i,
        word_q(packed_iq_word(i, q)) == q,
{
    assert((((((q as u16 as u32) << 16) | (i as u16 as u32)) & 0xFFFF) as i16) == i)
        by (bit_vector);
    assert(((((((q as u16 as u32) << 16) | (i as u16 as u32)) >> 16) & 0xFFFF) as i16) == q)
        by (bit_vector);
}

/// Unpacking loses nothing: every word is the packing of its two halves.
pub proof fn lemma_unpack_is_lossless(w: u32)
    ensures
        packed_iq_word(word_i(w), word_q(w)) == w,
{
    assert(((((((w >> 16) & 0xFFFF) as i16) as u16 as u32) << 16) | ((((w & 0xFFFF) as i16))
        as u16 as u32)) == w) by (bit_vector);
}

/// Unpacks DMA words ({Q,I} packed 16+16, I in the low half) and appends the halves to the
/// I and Q vectors.
pub fn unpack_iq_words(words: &[u32], i_buf: &mut Vec<i16>, q_buf: &mut Vec<i16>)
    ensures
        final(i_buf)@ == old(i_buf)@ + words@.map_values(|w: u32| word_i(w)),
        final(q_buf)@ == old(q_buf)@ + words@.map_values(|w: u32| word_q(w)),
{
    let ghost i0 = i_buf@;
    let ghost q0 = q_buf@;
    let mut k: usize = 0;
    while k < words.len()
        invariant
            0 <= k <= words.len(),
            i_buf@ == i0 + words@.subrange(0, k as int).map_values(|w: u32| word_i(w)),
            q_buf@ == q0 + words@.subrange(0, k as int).map_values(|w: u32| word_q(w)),
        decreases words.len() - k,
    {
        let packed = words[k];
        i_buf.push((packed & 0xFFFF) as i16);
        q_buf.push(((packed >> 16) & 0xFFFF) as i16);
        proof {
            assert(words@.subrange(0, k + 1) =~= words@.subrange(0, k as int).push(packed));
            assert(i_buf@ =~= i0 + words@.subrange(0, k + 1).map_values(|w: u32| word_i(w)));
            assert(q_buf@ =~= q0 + words@.subrange(0, k + 1).map_values(|w: u32| word_q(w)));
        }
        k = k + 1;
    }
    assert(words@.subrange(0, words.len() as int) =~= words@);
}

// --- RX CIC decimation ---

/// The CIC decimation the fabric should run for an RX baseband rate before rounding: the rate
/// divided by 960 kHz (truncating), held to the CIC cores' range [4, 64].
pub open spec fn cic_decimation_target(rx_fs: int) -> int {
    let q = if rx_fs < 0 { 0 } else { rx_fs / 960_000 };
    if q < 4 {
        4
    } else if q > 64 {
        64
    } else {
        q
    }
}

/// The smallest power of two at or above a target in [4, 64].
pub open spec fn power_of_two_at_least(c: int) -> int {
    if c <= 4 {
        4
    } else if c <= 8 {
        8
    } else if c <= 16 {
        16
    } else if c <= 32 {
        32
    } else {
        64
    }
}

/// FPGA CIC decimation for an RX baseband rate: the 960 kHz target, clamped to [4, 64] and
/// rounded up to a power of two.
pub fn rx_cic_decimation_for_rate(rx_fs: i64) -> (r: u32)
    ensures
        r == power_of_two_at_least(cic_decimation_target(rx_fs as int)),
{
    let q: i64 = if rx_fs < 0 { 0 } else { rx_fs / 960_000 };
    let c: i64 = if q < 4 { 4 } else if q > 64 { 64 } else { q };
    if c <= 4 {
        4
    } else if c <= 8 {
        8
    } else if c <= 16 {
        16
    } else if c <= 32 {
        32
    } else {
        64
    }
}

/// The chosen decimation is a power of two `p` with `target <= p < 2 * target`, i.e. the
/// smallest power of two not below the clamped target.
pub proof fn lemma_cic_decimation_is_next_power_of_two(rx_fs: int)
    ensures
        ({
            let c = cic_decimation_target(rx_fs);
            let p = power_of_two_at_least(c);
            &&& 4 <= c <= 64
            &&& c <= p < 2 * c
            &&& (p == 4 || p == 8 || p == 16 || p == 32 || p == 64)
        }),
{
}

// --- Fabric register shadow ---

/// Register blocks of the FPGA fabric and the AD9361 core that the host writes.
#[derive(Clone, Copy, Debug, PartialEq, Eq, Structural)]
pub enum RegisterBlock {
    /// AXI GPIO controlling the RX DSP pipeline.
    GpioRx,
    /// AXI GPIO controlling the TX DSP pipeline.
    GpioTx,
    /// AD9361 interface core.
    Ad9361,
    /// Audio AXI DMA controller.
    Dma,
}

/// One step of a register sequence.
#[derive(Clone, Copy, Debug, PartialEq, Eq, Structural)]
pub enum RegisterOp {
    /// A 32-bit write at a byte offset into a register block.
    Write { block: RegisterBlock, offset: usize, value: u32 },
    /// A pause, letting a pulse be seen or a reset settle.
    PauseMicros(u64),
}

/// A write to the RX GPIO.
pub open spec fn rx_write(offset: usize, value: u32) -> RegisterOp {
    RegisterOp::Write { block: RegisterBlock::GpioRx, offset: offset, value: value }
}

/// A write to the TX GPIO.
pub open spec fn tx_write(offset: usize, value: u32) -> RegisterOp {
    RegisterOp::Write { block: RegisterBlock::GpioTx, offset: offset, value: value }
}

/// A write to the DMA controller.
pub open spec fn dma_write(offset: usize, value: u32) -> RegisterOp {
    RegisterOp::Write { block: RegisterBlock::Dma, offset: offset, value: value }
}

/// RX control word (RX GPIO channel 1): bit 0 run (active-low reset released), bit 1 waterfall
/// burst trigger (0 at rest), bit 2 gated burst mode, bit 3 CIC config valid (0 at rest),
/// bits [11:4] CIC decimation, bit 12 DDS valid (0 at rest), bit 13 antenna.
pub open spec fn rx_control_word(cic: u32, burst_gate: bool, antenna: u8) -> u32 {
    (cic << 4u32) | 1u32 | ((if burst_gate { 1u32 } else { 0u32 }) << 2u32) | ((antenna as u32)
        << 13u32)
}

/// TX control word (TX GPIO channel 1): bit 0 custom DSP enabled, bit 1 antenna, bit 2 DDS
/// valid (0 at rest), bit 3 CIC config valid (0 at rest), bits [11:4] CIC interpolation (never
/// below the CIC minimum of 4), bits [27:12] TX strobe phase increment.
pub open spec fn tx_control_word(dsp_enabled: bool, antenna: u8, cic: u32, phase_inc: u32) -> u32 {
    (if dsp_enabled { 1u32 } else { 0u32 }) | ((antenna as u32) << 1u32) | ((if cic < 4 {
        4u32
    } else {
        cic
    }) << 4u32) | (phase_inc << 12u32)
}

/// The fabric DSP register shadow and the audio DMA ping-pong state. The hardware registers
/// are write-only from the host's point of view, so this is the source of truth for them.
#[derive(Clone, Copy, Debug, PartialEq, Eq, Structural)]
pub struct FabricShadow {
    pub rx_antenna: u8,
    pub rx_cic_decimation: u32,
    pub rx_burst_gate: bool,
    pub tx_antenna: u8,
    pub tx_cic_interpolation: u32,
    pub tx_phase_inc: u32,
    pub tx_dsp_enabled: bool,
    pub dma_running: bool,
    pub ping_pong: bool,
}

/// Bytes per audio DMA transfer (one page of the ping-pong pair).
pub const DMA_PAGE_BYTES: u32 = 65536;

impl FabricShadow {
    /// The power-on state: RX held in reset at decimation 0 with the burst gate on, TX DSP on
    /// at the CIC minimum, DMA stopped.
    pub fn new() -> (r: Self)
        ensures
            r == (FabricShadow {
                rx_antenna: 0,
                rx_cic_decimation: 0,
                rx_burst_gate: true,
                tx_antenna: 0,
                tx_cic_interpolation: 4,
                tx_phase_inc: 0,
                tx_dsp_enabled: true,
                dma_running: false,
                ping_pong: false,
            }),
    {
        FabricShadow {
            rx_antenna: 0,
            rx_cic_decimation: 0,
            rx_burst_gate: true,
            tx_antenna: 0,
            tx_cic_interpolation: 4,
            tx_phase_inc: 0,
            tx_dsp_enabled: true,
            dma_running: false,
            ping_pong: false,
        }
    }

    /// The RX control word for the shadowed state.
    pub open spec fn rx_word(self) -> u32 {
        rx_control_word(self.rx_cic_decimation, self.rx_burst_gate, self.rx_antenna)
    }

    /// The TX control word for the shadowed state.
    pub open spec fn tx_word(self) -> u32 {
        tx_control_word(
            self.tx_dsp_enabled,
            self.tx_antenna,
            self.tx_cic_interpolation,
            self.tx_phase_inc,
        )
    }

    /// Computes the RX control word.
    pub fn rx_base_val(&self) -> (r: u32)
        ensures
            r == self.rx_word(),
    {
        (self.rx_cic_decimation << 4u32) | 0x01 | ((if self.rx_burst_gate {
            1u32
        } else {
            0u32
        }) << 2u32) | ((self.rx_antenna as u32) << 13u32)
    }

    /// Computes the TX control word.
    pub fn tx_base_val(&self) -> (r: u32)
        ensures
            r == self.tx_word(),
    {
        let cic = if self.tx_cic_interpolation < 4 { 4u32 } else { self.tx_cic_interpolation };
        (if self.tx_dsp_enabled {
            1u32
        } else {
            0u32
        }) | ((self.tx_antenna as u32) << 1u32) | (cic << 4u32) | (self.tx_phase_inc << 12u32)
    }

    /// Stores the RX antenna and writes it, with the current decimation, to the RX GPIO.
    pub fn rx_update_gpio_antenna(&mut self, rx_antenna: u8) -> (ops: Vec<RegisterOp>)
        ensures
            *final(self) == (FabricShadow { rx_antenna: rx_antenna, ..*old(self) }),
            ops@ == seq![rx_write(0, final(self).rx_word())],
    {
        self.rx_antenna = rx_antenna;
        let v = self.rx_base_val();
        vec![RegisterOp::Write { block: RegisterBlock::GpioRx, offset: 0, value: v }]
    }

    /// Enables or bypasses the RX burst gate (bypassed: the ADC streams continuously).
    pub fn set_rx_burst_gate_enabled(&mut self, enabled: bool) -> (ops: Vec<RegisterOp>)
        ensures
            *final(self) == (FabricShadow { rx_burst_gate: enabled, ..*old(self) }),
            ops@ == seq![rx_write(0, final(self).rx_word())],
    {
        self.rx_burst_gate = enabled;
        let v = self.rx_base_val();
        vec![RegisterOp::Write { block: RegisterBlock::GpioRx, offset: 0, value: v }]
    }

    /// Pulses the burst trigger (bit 1) for one gated wideband burst.
    pub fn trigger_waterfall_burst(&self) -> (ops: Vec<RegisterOp>)
        ensures
            ops@ == seq![
                rx_write(0, self.rx_word() | 2),
                RegisterOp::PauseMicros(10),
                rx_write(0, self.rx_word()),
            ],
    {
        let v = self.rx_base_val();
        vec![
            RegisterOp::Write { block: RegisterBlock::GpioRx, offset: 0, value: v | 0x02 },
            RegisterOp::PauseMicros(10),
            RegisterOp::Write { block: RegisterBlock::GpioRx, offset: 0, value: v },
        ]
    }

    /// Sets the RX CIC decimation for `rx_fs` and the antenna, releases the AD9361 core
    /// resets, resets the RX pipeline (burst gate bypassed), releases it, and pulses CIC config
    /// valid (bit 3) to lock the rate in.
    pub fn rx_apply_dsp_config(&mut self, rx_antenna: u8, rx_fs: i64) -> (ops: Vec<RegisterOp>)
        ensures
            *final(self) == (FabricShadow {
                rx_antenna: rx_antenna,
                rx_cic_decimation: power_of_two_at_least(cic_decimation_target(rx_fs as int)) as u32,
                ..*old(self)
            }),
            ops@ == seq![
                RegisterOp::Write { block: RegisterBlock::Ad9361, offset: 0x40, value: 3 },
                rx_write(0x04, 0),
                rx_write(0x0C, 0),
                rx_write(0, (rx_antenna as u32) << 13u32),
                RegisterOp::PauseMicros(10_000),
                rx_write(0, final(self).rx_word()),
                rx_write(0, final(self).rx_word() | 8),
                RegisterOp::PauseMicros(10),
                rx_write(0, final(self).rx_word()),
            ],
    {
        self.rx_antenna = rx_antenna;
        self.rx_cic_decimation = rx_cic_decimation_for_rate(rx_fs);
        let base = self.rx_base_val();
        let reset = (rx_antenna as u32) << 13u32;
        vec![
            RegisterOp::Write { block: RegisterBlock::Ad9361, offset: 0x40, value: 3 },
            RegisterOp::Write { block: RegisterBlock::GpioRx, offset: 0x04, value: 0 },
            RegisterOp::Write { block: RegisterBlock::GpioRx, offset: 0x0C, value: 0 },
            RegisterOp::Write { block: RegisterBlock::GpioRx, offset: 0, value: reset },
            RegisterOp::PauseMicros(10_000),
            RegisterOp::Write { block: RegisterBlock::GpioRx, offset: 0, value: base },
            RegisterOp::Write { block: RegisterBlock::GpioRx, offset: 0, value: base | 0x08 },
            RegisterOp::PauseMicros(10),
            RegisterOp::Write { block: RegisterBlock::GpioRx, offset: 0, value: base },
        ]
    }

    /// Loads an RX DDS phase increment (RX GPIO channel 2) and pulses DDS valid (bit 12).
    pub fn rx_set_dds(&self, phase_inc: u32) -> (ops: Vec<RegisterOp>)
        ensures
            ops@ == seq![
                rx_write(0x08, phase_inc),
                rx_write(0, self.rx_word() | 0x1000),
                RegisterOp::PauseMicros(10),
                rx_write(0, self.rx_word()),
            ],
    {
        let v = self.rx_base_val();
        vec![
            RegisterOp::Write { block: RegisterBlock::GpioRx, offset: 0x08, value: phase_inc },
            RegisterOp::Write { block: RegisterBlock::GpioRx, offset: 0, value: v | 0x1000 },
            RegisterOp::PauseMicros(10),
            RegisterOp::Write { block: RegisterBlock::GpioRx, offset: 0, value: v },
        ]
    }

    /// Sets the TX antenna, CIC interpolation and strobe phase increment, writes them and
    /// pulses CIC config valid (bit 3) to lock them in.
    pub fn tx_apply_rates(&mut self, tx_antenna: u8, cic_interpolation: u32, strobe_inc: u32) -> (ops:
        Vec<RegisterOp>)
        ensures
            *final(self) == (FabricShadow {
                tx_antenna: tx_antenna,
                tx_cic_interpolation: cic_interpolation,
                tx_phase_inc: strobe_inc,
                ..*old(self)
            }),
            ops@ == seq![
                tx_write(0x04, 0),
                tx_write(0, final(self).tx_word()),
                RegisterOp::PauseMicros(10),
                tx_write(0, final(self).tx_word() | 8),
                RegisterOp::PauseMicros(10),
                tx_write(0, final(self).tx_word()),
            ],
    {
        self.tx_antenna = tx_antenna;
        self.tx_cic_interpolation = cic_interpolation;
        self.tx_phase_inc = strobe_inc;
        let v = self.tx_base_val();
        vec![
            RegisterOp::Write { block: RegisterBlock::GpioTx, offset: 0x04, value: 0 },
            RegisterOp::Write { block: RegisterBlock::GpioTx, offset: 0, value: v },
            RegisterOp::PauseMicros(10),
            RegisterOp::Write { block: RegisterBlock::GpioTx, offset: 0, value: v | 0x08 },
            RegisterOp::PauseMicros(10),
            RegisterOp::Write { block: RegisterBlock::GpioTx, offset: 0, value: v },
        ]
    }

    /// Loads a TX DDS phase increment (TX GPIO channel 2) and pulses DDS valid (bit 2), keeping
    /// the strobe increment in bits [27:12] across the pulse.
    pub fn tx_set_dds(&self, phase_inc: u32) -> (ops: Vec<RegisterOp>)
        ensures
            ops@ == seq![
                tx_write(0x08, phase_inc),
                tx_write(0, self.tx_word() | 4),
                RegisterOp::PauseMicros(10),
                tx_write(0, self.tx_word()),
            ],
    {
        let v = self.tx_base_val();
        vec![
            RegisterOp::Write { block: RegisterBlock::GpioTx, offset: 0x08, value: phase_inc },
            RegisterOp::Write { block: RegisterBlock::GpioTx, offset: 0, value: v | 0x04 },
            RegisterOp::PauseMicros(10),
            RegisterOp::Write { block: RegisterBlock::GpioTx, offset: 0, value: v },
        ]
    }

    /// Stores the TX antenna and writes it, with the current rates, to the TX GPIO.
    pub fn tx_update_gpio_antenna(&mut self, tx_antenna: u8) -> (ops: Vec<RegisterOp>)
        ensures
            *final(self) == (FabricShadow { tx_antenna: tx_antenna, ..*old(self) }),
            ops@ == seq![tx_write(0, final(self).tx_word())],
    {
        self.tx_antenna = tx_antenna;
        let v = self.tx_base_val();
        vec![RegisterOp::Write { block: RegisterBlock::GpioTx, offset: 0, value: v }]
    }

    /// Enables or bypasses the custom TX DSP pipeline (bit 0).
    pub fn set_tx_dsp_enabled(&mut self, enabled: bool) -> (ops: Vec<RegisterOp>)
        ensures
            *final(self) == (FabricShadow { tx_dsp_enabled: enabled, ..*old(self) }),
            ops@ == seq![tx_write(0, final(self).tx_word())],
    {
        self.tx_dsp_enabled = enabled;
        let v = self.tx_base_val();
        vec![RegisterOp::Write { block: RegisterBlock::GpioTx, offset: 0, value: v }]
    }

    /// Restores both GPIO controllers to their power-on-reset state.
    pub fn reset_gpio_to_default(&self) -> (ops: Vec<RegisterOp>)
        ensures
            ops@ == seq![rx_write(0x08, 0), rx_write(0, 0), tx_write(0x08, 0), tx_write(0, 0)],
    {
        vec![
            RegisterOp::Write { block: RegisterBlock::GpioRx, offset: 0x08, value: 0 },
            RegisterOp::Write { block: RegisterBlock::GpioRx, offset: 0, value: 0 },
            RegisterOp::Write { block: RegisterBlock::GpioTx, offset: 0x08, value: 0 },
            RegisterOp::Write { block: RegisterBlock::GpioTx, offset: 0, value: 0 },
        ]
    }

    /// Restarts the DMA engine, clears pending interrupts and unmasks only end-of-transfer;
    /// the ping-pong pair starts over on page 0.
    pub fn reset_audio_dma_controller(&mut self) -> (ops: Vec<RegisterOp>)
        ensures
            *final(self) == (FabricShadow { dma_running: false, ping_pong: false, ..*old(self) }),
            ops@ == seq![
                dma_write(DMA_REG_CTRL, 0),
                RegisterOp::PauseMicros(10),
                dma_write(DMA_REG_CTRL, 1),
                dma_write(DMA_REG_IRQ_PENDING, 0xFFFF_FFFF),
                dma_write(DMA_REG_IRQ_MASK, 1),
            ],
    {
        self.dma_running = false;
        self.ping_pong = false;
        vec![
            RegisterOp::Write { block: RegisterBlock::Dma, offset: DMA_REG_CTRL, value: 0 },
            RegisterOp::PauseMicros(10),
            RegisterOp::Write { block: RegisterBlock::Dma, offset: DMA_REG_CTRL, value: 1 },
            RegisterOp::Write {
                block: RegisterBlock::Dma,
                offset: DMA_REG_IRQ_PENDING,
                value: 0xFFFF_FFFF,
            },
            RegisterOp::Write { block: RegisterBlock::Dma, offset: DMA_REG_IRQ_MASK, value: 0x01 },
        ]
    }

    /// The page the DMA is filling now (and will be read next).
    pub open spec fn current_page(self) -> u32 {
        if self.ping_pong {
            DMA_PAGE_BYTES
        } else {
            0
        }
    }

    /// The page queued after the current one.
    pub open spec fn next_page(self) -> u32 {
        if self.ping_pong {
            0
        } else {
            DMA_PAGE_BYTES
        }
    }

    /// When the DMA is stopped, the two pages to queue (current first); `None` while running.
    pub fn dma_start_pages(&self) -> (r: Option<(u32, u32)>)
        ensures
            self.dma_running ==> r is None,
            !self.dma_running ==> r == Some((self.current_page(), self.next_page())),
    {
        if self.dma_running {
            None
        } else if self.ping_pong {
            Some((DMA_PAGE_BYTES, 0))
        } else {
            Some((0, DMA_PAGE_BYTES))
        }
    }

    /// Both pages were accepted and the transfer kicked off.
    pub fn dma_started(&mut self)
        ensures
            *final(self) == (FabricShadow { dma_running: true, ..*old(self) }),
    {
        self.dma_running = true;
    }

    /// When the DMA is running, the page that has just completed; it is re-queued before it
    /// is read, keeping the two-deep queue full.
    pub fn dma_read_page(&self) -> (r: Option<u32>)
        ensures
            self.dma_running ==> r == Some(self.current_page()),
            !self.dma_running ==> r is None,
    {
        if !self.dma_running {
            None
        } else if self.ping_pong {
            Some(DMA_PAGE_BYTES)
        } else {
            Some(0)
        }
    }

    /// The completed page was re-queued: the other page completes next.
    pub fn dma_page_consumed(&mut self)
        ensures
            *final(self) == (FabricShadow { ping_pong: !old(self).ping_pong, ..*old(self) }),
    {
        self.ping_pong = !self.ping_pong;
    }
}

/// The register writes that queue one DMA transfer into a page: destination address, length
/// minus one, then start.
pub open spec fn transfer_ops(page: u32) -> Seq<RegisterOp> {
    seq![
        dma_write(DMA_REG_DEST_ADDRESS, (RAM_PHYS_ADDR + page) as u32),
        dma_write(DMA_REG_X_LENGTH, (DMA_PAGE_BYTES - 1) as u32),
        dma_write(DMA_REG_START_TRANSFER, 1),
    ]
}

/// The writes that queue one transfer into `page` (issued once the controller has accepted the
/// previous descriptor).
pub fn dma_transfer_ops(page: u32) -> (ops: Vec<RegisterOp>)
    requires
        page <= DMA_PAGE_BYTES,
    ensures
        ops@ == transfer_ops(page),
{
    vec![
        RegisterOp::Write {
            block: RegisterBlock::Dma,
            offset: DMA_REG_DEST_ADDRESS,
            value: RAM_PHYS_ADDR + page,
        },
        RegisterOp::Write {
            block: RegisterBlock::Dma,
            offset: DMA_REG_X_LENGTH,
            value: DMA_PAGE_BYTES - 1,
        },
        RegisterOp::Write { block: RegisterBlock::Dma, offset: DMA_REG_START_TRANSFER, value: 1 },
    ]
}

/// Field layout of the RX control word: with a CIC rate that fits its 8-bit field and a 0/1
/// antenna, each field reads back its value and the pulse bits (1, 3, 12) are clear.
pub proof fn lemma_rx_word_layout(cic: u32, gate: bool, antenna: u8)
    requires
        cic < 256,
        antenna < 2,
    ensures
        rx_control_word(cic, gate, antenna) & 1 == 1,
        (rx_control_word(cic, gate, antenna) >> 2u32) & 1 == (if gate { 1u32 } else { 0u32 }),
        (rx_control_word(cic, gate, antenna) >> 4u32) & 0xFF == cic,
        (rx_control_word(cic, gate, antenna) >> 13u32) & 1 == antenna as u32,
        rx_control_word(cic, gate, antenna) & 0x100A == 0,
{
    let g: u32 = if gate { 1u32 } else { 0u32 };
    let a: u32 = antenna as u32;
    assert(((cic << 4u32) | 1u32 | (g << 2u32) | (a << 13u32)) & 1 == 1) by (bit_vector)
        requires
            cic < 256,
            g < 2,
            a < 2,
    ;
    assert(((((cic << 4u32) | 1u32 | (g << 2u32) | (a << 13u32)) >> 2u32) & 1) == g) by (bit_vector)
        requires
            cic < 256,
            g < 2,
            a < 2,
    ;
    assert(((((cic << 4u32) | 1u32 | (g << 2u32) | (a << 13u32)) >> 4u32) & 0xFF) == cic)
        by (bit_vector)
        requires
            cic < 256,
            g < 2,
            a < 2,
    ;
    assert(((((cic << 4u32) | 1u32 | (g << 2u32) | (a << 13u32)) >> 13u32) & 1) == a)
        by (bit_vector)
        requires
            cic < 256,
            g < 2,
            a < 2,
    ;
    assert((((cic << 4u32) | 1u32 | (g << 2u32) | (a << 13u32)) & 0x100A) == 0) by (bit_vector)
        requires
            cic < 256,
            g < 2,
            a < 2,
    ;
}

/// Field layout of the TX control word: with a 0/1 antenna, a CIC rate in [4, 255] and a
/// 16-bit strobe increment, each field reads back its value and the pulse bits (2, 3) are
/// clear.
pub proof fn lemma_tx_word_layout(enabled: bool, antenna: u8, cic: u32, inc: u32)
    requires
        antenna < 2,
        4 <= cic < 256,
        inc < 0x10000,
    ensures
        tx_control_word(enabled, antenna, cic, inc) & 1 == (if enabled { 1u32 } else { 0u32 }),
        (tx_control_word(enabled, antenna, cic, inc) >> 1u32) & 1 == antenna as u32,
        (tx_control_word(enabled, antenna, cic, inc) >> 4u32) & 0xFF == cic,
        (tx_control_word(enabled, antenna, cic, inc) >> 12u32) & 0xFFFF == inc,
        tx_control_word(enabled, antenna, cic, inc) & 0xC == 0,
{
    let e: u32 = if enabled { 1u32 } else { 0u32 };
    let a: u32 = antenna as u32;
    assert((e | (a << 1u32) | (cic << 4u32) | (inc << 12u32)) & 1 == e) by (bit_vector)
        requires
            e < 2,
            a < 2,
            cic < 256,
            inc < 0x10000,
    ;
    assert(((e | (a << 1u32) | (cic << 4u32) | (inc << 12u32)) >> 1u32) & 1 == a) by (bit_vector)
        requires
            e < 2,
            a < 2,
            cic < 256,
            inc < 0x10000,
    ;
    assert(((e | (a << 1u32) | (cic << 4u32) | (inc << 12u32)) >> 4u32) & 0xFF == cic)
        by (bit_vector)
        requires
            e < 2,
            a < 2,
            cic < 256,
            inc < 0x10000,
    ;
    assert(((e | (a << 1u32) | (cic << 4u32) | (inc << 12u32)) >> 12u32) & 0xFFFF == inc)
        by (bit_vector)
        requires
            e < 2,
            a < 2,
            cic < 256,
            inc < 0x10000,
    ;
    assert((e | (a << 1u32) | (cic << 4u32) | (inc << 12u32)) & 0xC == 0) by (bit_vector)
        requires
            e < 2,
            a < 2,
            cic < 256,
            inc < 0x10000,
    ;
}

/// A pulse leaves the rest of the word alone: setting a pulse bit that is clear in a word and
/// clearing it again gives back the word.
pub proof fn lemma_pulse_restores_word(word: u32, bit: u32)
    requires
        bit == 2 || bit == 4 || bit == 8 || bit == 0x1000,
        word & bit == 0,
    ensures
        (word | bit) & !bit == word,
        (word | bit) & bit == bit,
{
    assert((word | bit) & !bit == word) by (bit_vector)
        requires
            word & bit == 0,
    ;
    assert((word | bit) & bit == bit) by (bit_vector);
}

/// The DMA alternates between its two pages: after a page is consumed, the next read is the
/// other page, and two reads in a row return to the first.
pub proof fn lemma_dma_pages_alternate(s: FabricShadow)
    ensures
        (FabricShadow { ping_pong: !s.ping_pong, ..s }).current_page() == s.next_page(),
        (FabricShadow { ping_pong: !!s.ping_pong, ..s }).current_page() == s.current_page(),
        s.current_page() != s.next_page(),
{
}

// --- AD9361 channels and internal FIR ---

/// The IIO stream channel names (I, Q) of an antenna port: port 1 uses voltage2/3, any other
/// value port 0's voltage0/1.
pub open spec fn stream_channels(antenna: u8) -> (Seq<char>, Seq<char>) {
    if antenna == 1 {
        ("voltage2"@, "voltage3"@)
    } else {
        ("voltage0"@, "voltage1"@)
    }
}

/// The I and Q stream channel names for an antenna port.
pub fn stream_channel_names(antenna: u8) -> (r: (&'static str, &'static str))
    ensures
        (r.0@, r.1@) == stream_channels(antenna),
{
    match antenna {
        1 => ("voltage2", "voltage3"),
        _ => ("voltage0", "voltage1"),
    }
}

/// Accepts antenna 0 or 1; any other value is refused with a message naming it.
pub fn check_antenna(antenna: u8) -> (r: Result<(), String>)
    ensures
        antenna < 2 <==> r is Ok,
        r matches Err(e) ==> e@ == "Invalid settings: antenna has to be 0 or 1, was "@
            + decimal_text(antenna as int),
{
    if antenna >= 2 {
        let mut msg = "Invalid settings: antenna has to be 0 or 1, was ".to_owned();
        append_decimal(&mut msg, antenna as i32);
        Err(msg)
    } else {
        Ok(())
    }
}

/// Whether a baseband rate needs the AD9361's internal FIR (rates below the no-FIR floor).
pub fn needs_internal_fir(sampling_frequency: i64) -> (r: bool)
    ensures
        r == (sampling_frequency < AD9361_MIN_FS_NO_FIR),
{
    sampling_frequency < AD9361_MIN_FS_NO_FIR
}

/// 128-tap /4 RX/TX FIR coefficients from libad9361.
pub const FIR_128_4: [i16; 128] = [
    -15, -27, -23, -6, 17, 33, 31, 9, -23, -47, -45, -13, 34, 69, 67, 21, -49, -102, -99, -32, 69,
    146, 143, 48, -96, -204, -200, -69, 129, 278, 275, 97, -170, -372, -371, -135, 222, 494, 497,
    187, -288, -654, -665, -258, 376, 875, 902, 363, -500, -1201, -1265, -530, 699, 1748, 1906,
    845, -1089, -2922, -3424, -1697, 2326, 7714, 12821, 15921, 15921, 12821, 7714, 2326, -1697,
    -3424, -2922, -1089, 845, 1906, 1748, 699, -530, -1265, -1201, -500, 363, 902, 875, 376, -258,
    -665, -654, -288, 187, 497, 494, 222, -135, -371, -372, -170, 97, 275, 278, 129, -69, -200,
    -204, -96, 48, 143, 146, 69, -32, -99, -102, -49, 21, 67, 69, 34, -13, -45, -47, -23, 9, 31,
    33, 17, -6, -23, -27, -15,
];

/// One coefficient line of the FIR config: the same tap for RX and TX.
pub open spec fn fir_tap_line(c: i16) -> Seq<char> {
    decimal_text(c as int) + seq![','] + decimal_text(c as int) + seq!['\n']
}

/// The coefficient lines of a tap list, in order.
pub open spec fn fir_tap_lines(taps: Seq<i16>) -> Seq<char>
    decreases taps.len(),
{
    if taps.len() == 0 {
        Seq::empty()
    } else {
        fir_tap_lines(taps.drop_last()) + fir_tap_line(taps.last())
    }
}

/// The `filter_fir_config` text libad9361 writes: the RX (gain -6 dB, decimate by 4) and TX
/// (gain 0 dB, interpolate by 4) headers, one `rx,tx` coefficient line per tap, and a blank
/// line.
pub open spec fn fir_config(taps: Seq<i16>) -> Seq<char> {
    "RX 3 GAIN -6 DEC 4\n"@ + "TX 3 GAIN 0 INT 4\n"@ + fir_tap_lines(taps) + seq!['\n']
}

/// Builds the `filter_fir_config` attribute text for a tap list.
pub fn fir_config_text(taps: &[i16]) -> (r: String)
    ensures
        r@ == fir_config(taps@),
{
    let mut cfg = "RX 3 GAIN -6 DEC 4\n".to_owned();
    cfg.append("TX 3 GAIN 0 INT 4\n");
    let ghost head = cfg@;
    let mut k: usize = 0;
    while k < taps.len()
        invariant
            0 <= k <= taps.len(),
            cfg@ == head + fir_tap_lines(taps@.subrange(0, k as int)),
        decreases taps.len() - k,
    {
        let c = taps[k];
        append_decimal(&mut cfg, c as i32);
        proof {
            reveal_strlit(",");
            reveal_strlit("\n");
        }
        cfg.append(",");
        append_decimal(&mut cfg, c as i32);
        cfg.append("\n");
        proof {
            let t = taps@.subrange(0, k + 1);
            assert(t.drop_last() =~= taps@.subrange(0, k as int));
            assert(t.last() == c);
        }
        k = k + 1;
    }
    proof {
        reveal_strlit("\n");
    }
    cfg.append("\n");
    assert(taps@.subrange(0, taps.len() as int) =~= taps@);
    cfg
}

/// Integer division rounding toward zero, as Rust's `/` does, for a positive divisor.
pub open spec fn quotient_toward_zero(a: int, b: int) -> int {
    if a >= 0 {
        a / b
    } else {
        -((-a) / b)
    }
}

/// Whether the DAC-to-TX-sample ratio leaves too little headroom for the FIR while it is
/// enabled at a low rate (`(dac / txsamp) * 16` below the tap count), in which case the rate is
/// first raised to 3 MHz. Unknown or non-positive readings never ask for it.
pub open spec fn rate_bump_needed(dac: Option<i64>, txsamp: Option<i64>, taps: int) -> bool {
    match (dac, txsamp) {
        (Some(d), Some(t)) => t > 0 && quotient_toward_zero(d as int, t as int) * 16 < taps,
        _ => false,
    }
}

/// Decides the 3 MHz bump from the DAC and TX sample rates; see `rate_bump_needed`.
pub fn fir_needs_rate_bump(dac: Option<i64>, txsamp: Option<i64>, taps: usize) -> (r: bool)
    ensures
        r == rate_bump_needed(dac, txsamp, taps as int),
{
    match (dac, txsamp) {
        (Some(d), Some(t)) => {
            if t > 0 {
                let ratio = d / t;
                (ratio as i128) * 16 < taps as i128
            } else {
                false
            }
        },
        _ => false,
    }
}

/// Decides the 3 MHz bump from the driver's `tx_path_rates` report (white-space separated
/// `KEY:value` fields), reading the `DAC:` and `TXSAMP:` rates from it.
pub fn tx_path_rates_need_bump(rates: &str, taps: usize) -> (r: bool)
    ensures
        r == rate_bump_needed(
            keyed_field(rates@, "DAC:"@),
            keyed_field(rates@, "TXSAMP:"@),
            taps as int,
        ),
{
    let dac = keyed_field_value(rates, "DAC:");
    let txsamp = keyed_field_value(rates, "TXSAMP:");
    fir_needs_rate_bump(dac, txsamp, taps)
}

// --- TX sample accumulation ---

/// Accumulates TX I/Q samples until a full DMA buffer of `buffer_size` samples is ready.
pub struct TxAccumulator {
    pub acc_i: Vec<i16>,
    pub acc_q: Vec<i16>,
    pub buffer_size: usize,
}

impl TxAccumulator {
    /// The two channels hold the same count, never more than a buffer.
    pub open spec fn wf(self) -> bool {
        &&& self.acc_i@.len() == self.acc_q@.len()
        &&& self.acc_i@.len() <= self.buffer_size
    }

    /// An empty accumulator for buffers of `buffer_size` samples.
    pub fn new(buffer_size: usize) -> (r: Self)
        ensures
            r.acc_i@ == Seq::<i16>::empty(),
            r.acc_q@ == Seq::<i16>::empty(),
            r.buffer_size == buffer_size,
            r.wf(),
    {
        TxAccumulator { acc_i: Vec::new(), acc_q: Vec::new(), buffer_size }
    }

    /// Takes as many leading samples as fit in the buffer (over the pairs both channels
    /// have) and returns how many it took.
    pub fn fill(&mut self, i: &[i16], q: &[i16]) -> (taken: usize)
        requires
            old(self).wf(),
        ensures
            final(self).wf(),
            final(self).buffer_size == old(self).buffer_size,
            ({
                let room = old(self).buffer_size - old(self).acc_i@.len();
                let avail = if i@.len() < q@.len() { i@.len() } else { q@.len() };
                taken == if room < avail { room } else { avail as int }
            }),
            final(self).acc_i@ == old(self).acc_i@ + i@.take(taken as int),
            final(self).acc_q@ == old(self).acc_q@ + q@.take(taken as int),
    {
        let needed = self.buffer_size - self.acc_i.len();
        let avail = if i.len() < q.len() { i.len() } else { q.len() };
        let take = if needed < avail { needed } else { avail };
        let ghost i0 = self.acc_i@;
        let ghost q0 = self.acc_q@;
        let mut k: usize = 0;
        while k < take
            invariant
                0 <= k <= take,
                take <= i@.len(),
                take <= q@.len(),
                self.acc_i@ == i0 + i@.take(k as int),
                self.acc_q@ == q0 + q@.take(k as int),
                self.buffer_size == old(self).buffer_size,
            decreases take - k,
        {
            self.acc_i.push(i[k]);
            self.acc_q.push(q[k]);
            assert(i@.take(k + 1) =~= i@.take(k as int).push(i@[k as int]));
            assert(q@.take(k + 1) =~= q@.take(k as int).push(q@[k as int]));
            k = k + 1;
        }
        take
    }

    /// Feeds the pairs both channels have and hands out every buffer that fills, in order: the
    /// held samples followed by the input are cut into consecutive buffers of `buffer_size`
    /// samples, and what does not fill a buffer stays held. With no input nothing changes.
    pub fn take_buffers(&mut self, i: &[i16], q: &[i16]) -> (bufs: Vec<(Vec<i16>, Vec<i16>)>)
        requires
            old(self).wf(),
            old(self).buffer_size > 0,
        ensures
            final(self).wf(),
            final(self).buffer_size == old(self).buffer_size,
            ({
                let b = old(self).buffer_size as int;
                let n = if i@.len() < q@.len() { i@.len() as int } else { q@.len() as int };
                let all_i = old(self).acc_i@ + i@.take(n);
                let all_q = old(self).acc_q@ + q@.take(n);
                &&& n == 0 ==> bufs@.len() == 0 && final(self).acc_i@ == old(self).acc_i@
                    && final(self).acc_q@ == old(self).acc_q@
                &&& n > 0 ==> {
                    &&& bufs@.len() == all_i.len() as int / b
                    &&& final(self).acc_i@.len() < b
                    &&& bufs@.len() * b + final(self).acc_i@.len() == all_i.len()
                    &&& final(self).acc_i@ == all_i.subrange(bufs@.len() * b, all_i.len() as int)
                    &&& final(self).acc_q@ == all_q.subrange(bufs@.len() * b, all_q.len() as int)
                    &&& forall|j: int|
                        0 <= j < bufs@.len() ==> #[trigger] bufs@[j].0@ == all_i.subrange(
                            j * b,
                            (j + 1) * b,
                        ) && bufs@[j].1@ == all_q.subrange(j * b, (j + 1) * b)
                }
            }),
    {
        let b = self.buffer_size;
        let n = if i.len() < q.len() { i.len() } else { q.len() };
        let ghost a_i = self.acc_i@;
        let ghost a_q = self.acc_q@;
        let mut bufs: Vec<(Vec<i16>, Vec<i16>)> = Vec::new();
        if n == 0 {
            return bufs;
        }
        proof {
            assert(bufs@.len() * b == 0) by (nonlinear_arith)
                requires
                    bufs@.len() == 0,
            ;
            assert(a_i + i@.take(0) =~= a_i);
            assert(a_q + q@.take(0) =~= a_q);
            assert(a_i.subrange(0, a_i.len() as int) =~= a_i);
            assert(a_q.subrange(0, a_q.len() as int) =~= a_q);
        }
        let ghost all_i = a_i + i@.take(n as int);
        let ghost all_q = a_q + q@.take(n as int);
        let mut k: usize = 0;
        while k < n
            invariant
                b == self.buffer_size,
                b > 0,
                n <= i@.len(),
                n <= q@.len(),
                k <= n,
                all_i == a_i + i@.take(n as int),
                all_q == a_q + q@.take(n as int),
                a_i.len() == a_q.len(),
                self.acc_i@.len() == self.acc_q@.len(),
                self.acc_i@.len() <= b,
                bufs@.len() * b + self.acc_i@.len() == a_i.len() + k,
                self.acc_i@ == all_i.subrange(bufs@.len() * b, a_i.len() + k),
                self.acc_q@ == all_q.subrange(bufs@.len() * b, a_q.len() + k),
                forall|j: int|
                    0 <= j < bufs@.len() ==> #[trigger] bufs@[j].0@ == all_i.subrange(
                        j * b,
                        (j + 1) * b,
                    ) && bufs@[j].1@ == all_q.subrange(j * b, (j + 1) * b),
            decreases n - k,
        {
            if self.acc_i.len() == b {
                self.flush_into(&mut bufs, Ghost(all_i), Ghost(all_q), Ghost(a_i.len() + k));
            }
            let ghost o = bufs@.len();
            self.acc_i.push(i[k]);
            self.acc_q.push(q[k]);
            proof {
                assert(all_i[a_i.len() + k] == i@[k as int]);
                assert(all_q[a_q.len() + k] == q@[k as int]);
                assert(self.acc_i@ =~= all_i.subrange(o * b, a_i.len() + k + 1));
                assert(self.acc_q@ =~= all_q.subrange(o * b, a_q.len() + k + 1));
            }
            k = k + 1;
        }
        if self.acc_i.len() == b {
            self.flush_into(&mut bufs, Ghost(all_i), Ghost(all_q), Ghost(a_i.len() + n));
            proof {
                assert(all_i.subrange(bufs@.len() * b, all_i.len() as int) =~= Seq::<i16>::empty());
                assert(all_q.subrange(bufs@.len() * b, all_q.len() as int) =~= Seq::<i16>::empty());
            }
        }
        proof {
            vstd::arithmetic::div_mod::lemma_fundamental_div_mod_converse(
                all_i.len() as int,
                b as int,
                bufs@.len() as int,
                self.acc_i@.len() as int,
            );
        }
        bufs
    }

    /// Moves a full buffer out to `bufs`: it is the next `buffer_size` samples of `all`.
    fn flush_into(
        &mut self,
        bufs: &mut Vec<(Vec<i16>, Vec<i16>)>,
        Ghost(all_i): Ghost<Seq<i16>>,
        Ghost(all_q): Ghost<Seq<i16>>,
        Ghost(upto): Ghost<int>,
    )
        requires
            old(self).buffer_size > 0,
            old(self).acc_i@.len() == old(self).buffer_size,
            old(self).acc_q@.len() == old(self).buffer_size,
            old(bufs)@.len() * old(self).buffer_size + old(self).buffer_size == upto,
            upto <= all_i.len(),
            upto <= all_q.len(),
            old(self).acc_i@ == all_i.subrange(old(bufs)@.len() * old(self).buffer_size, upto),
            old(self).acc_q@ == all_q.subrange(old(bufs)@.len() * old(self).buffer_size, upto),
        ensures
            final(self).buffer_size == old(self).buffer_size,
            final(self).acc_i@ == Seq::<i16>::empty(),
            final(self).acc_q@ == Seq::<i16>::empty(),
            final(bufs)@.len() == old(bufs)@.len() + 1,
            final(bufs)@.len() * old(self).buffer_size == upto,
            forall|j: int| 0 <= j < old(bufs)@.len() ==> #[trigger] final(bufs)@[j] == old(bufs)@[j],
            final(bufs)@[old(bufs)@.len() as int].0@ == all_i.subrange(
                old(bufs)@.len() * old(self).buffer_size,
                (old(bufs)@.len() + 1) * old(self).buffer_size,
            ),
            final(bufs)@[old(bufs)@.len() as int].1@ == all_q.subrange(
                old(bufs)@.len() * old(self).buffer_size,
                (old(bufs)@.len() + 1) * old(self).buffer_size,
            ),
    {
        let ghost o = bufs@.len();
        let ghost b = self.buffer_size;
        proof {
            assert((o + 1) * b == o * b + b) by (nonlinear_arith);
        }
        let mut full_i: Vec<i16> = Vec::new();
        let mut full_q: Vec<i16> = Vec::new();
        std::mem::swap(&mut full_i, &mut self.acc_i);
        std::mem::swap(&mut full_q, &mut self.acc_q);
        bufs.push((full_i, full_q));
    }

    /// Whether a full buffer is ready to push.
    pub fn is_full(&self) -> (r: bool)
        ensures
            r == (self.acc_i@.len() == self.buffer_size),
    {
        self.acc_i.len() == self.buffer_size
    }

    /// Empties the accumulator after a push (or when channels are released).
    pub fn clear(&mut self)
        ensures
            final(self).acc_i@ == Seq::<i16>::empty(),
            final(self).acc_q@ == Seq::<i16>::empty(),
            final(self).buffer_size == old(self).buffer_size,
            final(self).wf(),
    {
        self.acc_i.clear();
        self.acc_q.clear();
    }
}

/// Feeding a chunk no longer than the free room takes all of it, and a buffer becomes full
/// exactly when the room is used up: no sample offered is lost or duplicated.
pub proof fn lemma_fill_takes_whole_chunk(acc_len: nat, buffer_size: nat, chunk: nat)
    requires
        acc_len <= buffer_size,
        chunk <= buffer_size - acc_len,
    ensures
        ({
            let room = buffer_size - acc_len;
            let taken = if room < chunk { room } else { chunk as int };
            &&& taken == chunk
            &&& (acc_len + taken == buffer_size <==> chunk == room)
        }),
{
}

} // verus!
