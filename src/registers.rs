use vstd::prelude::*;

verus! {

/// Device Control Register.
pub const CTRL: u32 = 0x0000;

/// Device Status Register.
pub const STATUS: u32 = 0x0008;

/// EEPROM/Flash Control & Data Register.
pub const EECD: u32 = 0x0010;

/// EEPROM Read Register.
pub const EERD: u32 = 0x0014;

/// Extended Device Control Register.
pub const CTRL_EXT: u32 = 0x0018;

/// Flash Access Register.
pub const FLA: u32 = 0x001C;

/// MDI Control Register.
pub const MDIC: u32 = 0x0020;

/// SerDes Control Register.
pub const SCTL: u32 = 0x0024;

/// Expansion ROM Base Address Register.
pub const EXPANSION_ROM_BASE: u32 = 0x0028;

/// LED Control Register.
pub const LEDCTL: u32 = 0x00E0;

/// Packet Buffer Allocation Register.
pub const PBA: u32 = 0x1000;

/// Packet Buffer Size Register.
pub const PBS: u32 = 0x1008;

/// EEPROM Control Register.
pub const EEC: u32 = 0x100C;

/// Flash Access Register 2.
pub const FLA2: u32 = 0x1018;

/// Receive Small Packet Detect.
pub const RSRPD: u32 = 0x2C00;

/// Receive Data FIFO Head.
pub const RDFH: u32 = 0x2410;

/// Receive Data FIFO Tail.
pub const RDFT: u32 = 0x2420;

/// Receive Data FIFO Head Saved.
pub const RDFHS: u32 = 0x2424;

/// Receive Data FIFO Tail Saved.
pub const RDFTS: u32 = 0x2428;

/// Receive Data FIFO Packet Count.
pub const RDFPC: u32 = 0x24F0;

/// Receive Descriptor Base Address Low.
pub const RDBAL: u32 = 0x2800;

/// Receive Descriptor Base Address High.
pub const RDBAH: u32 = 0x2804;

/// Receive Descriptor Length.
pub const RDLEN: u32 = 0x2808;

/// Receive Descriptor Head.
pub const RDH: u32 = 0x2810;

/// Receive Descriptor Tail.
pub const RDT: u32 = 0x2818;

/// Receive Delay Timer Register.
pub const RDTR: u32 = 0x2820;

/// Receive Descriptor Control.
pub const RXDCTL: u32 = 0x2828;

/// Receive Interrupt Absolute Delay Timer.
pub const RADV: u32 = 0x282C;

/// Receive Address Register.
pub const RA: u32 = 0x5400;

/// Multicast Table Array.
pub const MTA: u32 = 0x5200;

/// Transmit Descriptor Base Address Low.
pub const TDBAL: u32 = 0x3800;

/// Transmit Descriptor Base Address High.
pub const TDBAH: u32 = 0x3804;

/// Transmit Descriptor Length.
pub const TDLEN: u32 = 0x3808;

/// Transmit Descriptor Head.
pub const TDH: u32 = 0x3810;

/// Transmit Descriptor Tail.
pub const TDT: u32 = 0x3818;

/// Transmit Interrupt Delay Value.
pub const TIDV: u32 = 0x3820;

/// Transmit Descriptor Control.
pub const TXDCTL: u32 = 0x3828;

/// Transmit Absolute Interrupt Delay Value.
pub const TADV: u32 = 0x382C;

/// TCP Segmentation Pad & Min Threshold.
pub const TSPMT: u32 = 0x3830;

/// CRC Error Count.
pub const CRCERRS: u32 = 0x4000;

/// Missed Packets Count.
pub const MPC: u32 = 0x4010;

/// Single Collision Count.
pub const SCC: u32 = 0x4014;

/// Excessive Collision Count.
pub const ECOL: u32 = 0x4018;

/// Multiple Collision Count.
pub const MCC: u32 = 0x401C;

/// Late Collision Count.
pub const LATECOL: u32 = 0x4020;

/// Collision Count.
pub const COLC: u32 = 0x4028;

/// Defer Count.
pub const DC: u32 = 0x4030;

/// Transmit with No CRS.
pub const TNCRS: u32 = 0x4040;

/// Sequence Error Count.
pub const SEC: u32 = 0x4044;

/// Carrier Extension Error Count.
pub const CEXTERR: u32 = 0x4048;

/// Receive Length Error Count.
pub const RLEC: u32 = 0x404C;

/// XON Received Count.
pub const XONRXC: u32 = 0x4050;

/// XON Transmitted Count.
pub const XONTXC: u32 = 0x4054;

/// XOFF Received Count.
pub const XOFFRXC: u32 = 0x4058;

/// XOFF Transmitted Count.
pub const XOFFTXC: u32 = 0x405C;

/// Flow Control Received Unsupported Count.
pub const FCRUC: u32 = 0x4060;

/// Packets Received (64 Bytes).
pub const PRC64: u32 = 0x4064;

/// Packets Received (65-127 Bytes).
pub const PRC127: u32 = 0x4068;

/// Packets Received (128-255 Bytes).
pub const PRC255: u32 = 0x406C;

/// Packets Received (256-511 Bytes).
pub const PRC511: u32 = 0x4070;

/// Packets Received (512-1023 Bytes).
pub const PRC1023: u32 = 0x4074;

/// Packets Received (1024-1522 Bytes).
pub const PRC1522: u32 = 0x4078;

/// Good Packets Received Count.
pub const GPRC: u32 = 0x407C;

/// Broadcast Packets Received Count.
pub const BPRC: u32 = 0x4080;

/// Multicast Packets Received Count.
pub const MPRC: u32 = 0x4084;

/// Good Packets Transmitted Count.
pub const GPTC: u32 = 0x4088;

/// Good Octets Received Count Low.
pub const GORCL: u32 = 0x408C;

/// Good Octets Received Count High.
pub const GORCH: u32 = 0x4090;

/// Good Octets Transmitted Count Low.
pub const GOTCL: u32 = 0x4094;

/// Good Octets Transmitted Count High.
pub const GOTCH: u32 = 0x4098;

/// Receive No Buffers Count.
pub const RNBC: u32 = 0x40A0;

/// Receive Undersize Count.
pub const RUC: u32 = 0x40A4;

/// Receive Fragment Count.
pub const RFC: u32 = 0x40A8;

/// Receive Oversize Count.
pub const ROC: u32 = 0x40AC;

/// Receive Jabber Count.
pub const RJC: u32 = 0x40B0;

/// Management Packets Received Count.
pub const MGTPRC: u32 = 0x40B4;

/// Management Packets Dropped Count.
pub const MGTPDC: u32 = 0x40B8;

/// Management Packets Transmitted Count.
pub const MGTPTC: u32 = 0x40BC;

/// Total Octets Received.
pub const TORL: u32 = 0x40C0;

/// Total Octets Received.
pub const TORH: u32 = 0x40C4;

/// Total Octets Transmitted.
pub const TOTL: u32 = 0x40C8;

/// Total Octets Transmitted.
pub const TOTH: u32 = 0x40CC;

/// Total Packets Received.
pub const TPR: u32 = 0x40D0;

/// Total Packets Transmitted.
pub const TPT: u32 = 0x40D4;

/// Packets Transmitted (64 Bytes).
pub const PTC64: u32 = 0x40D8;

/// Packets Transmitted (65-127 Bytes).
pub const PTC127: u32 = 0x40DC;

/// Packets Transmitted (128-255 Bytes).
pub const PTC255: u32 = 0x40E0;

/// Packets Transmitted (256-511 Bytes).
pub const PTC511: u32 = 0x40E4;

/// Packets Transmitted (512-1023 Bytes).
pub const PTC1023: u32 = 0x40E8;

/// Packets Transmitted (1024-1522 Bytes).
pub const PTC1522: u32 = 0x40EC;

/// Multicast Packets Transmitted Count.
pub const MPTC: u32 = 0x40F0;

/// Broadcast Packets Transmitted Count.
pub const BPTC: u32 = 0x40F4;

/// TCP Segmentation Context Transmitted Count.
pub const TSCTC: u32 = 0x40F8;

/// TCP Segmentation Context Transmit Fail Count.
pub const TSCTFC: u32 = 0x40FC;

/// Interrupt Assertion Count.
pub const IAC: u32 = 0x4100;

/// Interrupt Cause Read Register.
pub const ICR: u32 = 0x00C0;

/// Interrupt Throttling Register.
pub const ITR: u32 = 0x00C4;

/// Interrupt Mask Set/Read Register.
pub const IMS: u32 = 0x00D0;

/// Interrupt Mask Clear Register.
pub const IMC: u32 = 0x00D8;

/// Interrupt Acknowledge Auto Mask Register.
pub const IAM: u32 = 0x00E0;

/// Receive Address High register: the upper two bytes of the station address.
pub const RAH: u32 = 0x5404;

/// Size in bytes of the register window: it ends after RAH, the highest register used.
pub const WINDOW_BYTES: u32 = 0x5408;

/// Number of 32-bit words in the register window.
pub const WINDOW_WORDS: usize = 0x1502;

/// CTRL: device reset; the device clears it when the reset is complete.
pub const CTRL_RST: u32 = 0x0400_0000;

/// STATUS: link up.
pub const STATUS_LU: u32 = 0x0000_0002;

/// RXDCTL / TXDCTL: queue enable.
pub const DCTL_ENABLE: u32 = 0x0200_0000;

/// Interrupt cause: transmit descriptor written back.
pub const IMS_TXDW: u32 = 0x0000_0001;

/// Interrupt cause: transmit queue empty.
pub const IMS_TXQE: u32 = 0x0000_0002;

/// Interrupt cause: link status change.
pub const IMS_LSC: u32 = 0x0000_0004;

/// Size in bytes of one receive or transmit descriptor.
pub const DESCRIPTOR_BYTES: u32 = 16;

/// An offset names a register of the window: word aligned and inside it.
pub open spec fn valid_offset(offset: u32) -> bool {
    offset % 4 == 0 && offset < WINDOW_BYTES
}

/// Index of the word that holds the register at `offset`.
pub open spec fn word_of(offset: u32) -> int {
    offset as int / 4
}

} // verus!
