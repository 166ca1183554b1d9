//! The IANA protocol-number registry for the 8-bit protocol field of the
//! IPv4 header: a total, immutable mapping from every byte value to a named
//! protocol variant, with `Unknown` as the sentinel for unassigned codes.

use vstd::prelude::*;

verus! {

/// A protocol identifier of the IPv4 protocol field, one variant per code
/// assigned in the IANA protocol-number registry. Every named variant has
/// exactly one canonical code in `0..=255`; the sentinel `Unknown` stands for
/// every code without an assignment, and is itself backed by the reserved
/// code 255.
#[derive(Clone, Copy, Debug, PartialEq, Eq, Structural)]
pub enum AIPN {
    /// IPv6 Hop-by-Hop Option
    HOPOPT,
    /// Internet Control Message Protocol
    ICMP,
    /// Internet Group Management Protocol
    IGMP,
    /// Gateway-to-Gateway
    GGP,
    /// IPv4 encapsulation
    IPv4,
    /// Stream
    ST,
    /// Transmission Control Protocol
    TCP,
    /// CBT
    CBT,
    /// Exterior Gateway Protocol
    EGP,
    /// any private interior gateway (used by Cisco for their IGRP)
    IGP,
    /// BBN RCC Monitoring
    BbnRccMon,
    /// Network Voice Protocol
    NvpIi,
    /// PUP
    PUP,
    /// ARGUS
    ARGUS,
    /// EMCON
    EMCON,
    /// Cross Net Debugger
    XNET,
    /// Chaos
    CHAOS,
    /// User Datagram Protocol
    UDP,
    /// Multiplexing
    MUX,
    /// DCN Measurement Subsystems
    DcnMeas,
    /// Host Monitoring
    HMP,
    /// Packet Radio Measurement
    PRM,
    /// XEROS NS IDP
    XnsIdp,
    /// Trunk-1
    Trunk1,
    /// Trunk-2
    Trunk2,
    /// Leaf-1
    Leaf1,
    /// Leaf-2
    Leaf2,
    /// Reliable Data Protocol
    RDP,
    /// Internet Reliable Transaction
    IRTP,
    /// ISO Transport Protocol Class 4
    IsoTp4,
    /// Bulk Data Transfer Protocol
    NETBLT,
    /// MFE Network Services Protocol
    MfeNsp,
    /// Merit Internodal Protocol
    MeritInp,
    /// Datagram Congestion Control Protocol
    DCCP,
    /// Third Party Connect Protocol
    ThreePC,
    /// Inter-Domain Policy Routing Protocol
    IDPR,
    /// XTP
    XTP,
    /// Datagram Delivery Protocol
    DDP,
    /// IDPR Control Message Transport Protocol
    IdprCmtp,
    /// TP++ Transport Protocol
    TpPlusPlus,
    /// IL Transport Protocol
    IL,
    /// IPv6 Encapsulation
    IPv6,
    /// Source Demand Routing Protocol
    SDRP,
    /// Routing Header for IPv6
    Ipv6Route,
    /// Fragment Header for IPv6
    Ipv6Frag,
    /// Inter-Domain Routing Protocol
    IDRP,
    /// Reservation Protocol
    RSVP,
    /// General Routing Encapsulation
    GRE,
    /// Dynamic Source Routing Protocol
    DSR,
    /// BNA
    BNA,
    /// Encap Security Payload
    ESP,
    /// Authentication Header
    AH,
    /// Integrated Net Layer Security TUBA
    INlsp,
    /// IP with Encryption
    SWIPE,
    /// NBMA Address Resolution Protocol
    NARP,
    /// Minimal Ipv4 Encapsulation
    MinIpv4,
    /// Transportation Layer Security Protocol using Kryptonet key management
    TLSP,
    /// SKIP
    SKIP,
    /// Ipv6 Icmp
    Ipv6Icmp,
    /// Ipv6 No Next Header
    Ipv6NoNxt,
    /// Ipv6 Destination Options
    Ipv6Opts,
    /// Any host internal protocol
    AnyHostInternalProtocol,
    /// CFTP
    CFTP,
    /// Any local network
    AnyLocalNetwork,
    /// SATNET and Backroom EXPAK
    SatExpak,
    /// Kryptolan
    KRYPTOLAN,
    /// MIT Remote Virtual Disk Protocol
    RDVI,
    /// Internet Pluribus Packet Core
    IPPC,
    /// Any distributed file system
    AnyDistributedFileSystem,
    /// SATNET Monitoring
    SatMon,
    /// VISA Protocol
    VISA,
    /// Internet Packet Core Utility
    IPCV,
    /// Computer Protocol Network Executive
    CPNX,
    /// Computer Protocol Heart Beat
    CPHB,
    /// Wang Span Network
    WSN,
    /// Packet Video Protocol
    PVP,
    /// Backroom SATNET Monitoring
    BrSatMon,
    /// SUN ND PROTOCOL-Temporary
    SunNd,
    /// WIDEBAND Monitoring
    WbMon,
    /// WIDEBAND EXPAK
    WbExpak,
    /// ISO Internet Protocol
    IsoIp,
    /// VMTP
    VMTP,
    /// SECURE-VMTP
    SecureVmtp,
    /// VINES
    VINES,
    /// Internet Protocol Traffic Manager
    IPTM,
    /// NSFNET-IGP
    NsfnetIgp,
    /// Dissimilar Gateway Protocol
    DGP,
    /// TCF
    TCF,
    /// EIGRP
    EIGRP,
    /// OSPFIGP
    OSPFIGP,
    /// Sprite RPC Protocol
    SpriteRpc,
    /// Locus Address Resolution Protocol
    LARP,
    /// Multicast Transport Protocol
    MTP,
    /// AX.25 Frames
    AX25,
    /// IP-within-IP Encapsulation Protocol
    IPIP,
    /// Mobile Internetworking Control Protocol
    MICP,
    /// Semaphore Communications Sec. Pro
    SccSp,
    /// Ethernet-within-IP Encapsulation
    ETHERIP,
    /// Encapsulation Header
    ENCAP,
    /// Any private encryption scheme
    AnyPrivateEncryptionScheme,
    /// GMTP
    GMTP,
    /// Ipsilon Flow Management Protocol
    IFMP,
    /// PNNI over IP
    PNNI,
    /// Protocol Independent Multicast
    PIM,
    /// ARIS
    ARIS,
    /// SCPS
    SCP,
    /// QNX
    QNX,
    /// Active Networks
    AN,
    /// IP Payload Compression Protocol
    IPComp,
    /// Sitara Networks Protocol
    SNP,
    /// Compaq Peer Protocol
    CompaqPeer,
    /// IPX in IP
    IpxInIp,
    /// Virtual Router Redundancy Protocol
    VRRP,
    /// PGM Reliable Transport Protocol
    PGM,
    /// Any 0-hop protocol
    Any0HopProtocol,
    /// Layer Two Tunneling Protocol
    L2TP,
    /// D-II Data Exchange (DDX)
    DDX,
    /// Interactive Agent Transfer Protocol
    IATP,
    /// Schedule Transfer Protocol
    STP,
    /// SpectraLink Radio Protocol
    SRP,
    /// UTI
    UTI,
    /// Simple Message Protocol
    SMP,
    /// Simple Multicast Protocol
    SM,
    /// Performance Transparency Protocol
    PTP,
    /// ISIS over IPv4
    IsisOverIpv4,
    /// FIRE
    FIRE,
    /// Combat Radio Transport Protocol
    CRTP,
    /// Combat Radio User Datagram
    CRUDP,
    /// SSCOPMCE
    SSCOPMCE,
    /// IPLT
    IPLT,
    /// Secure Packet Shield
    SPS,
    /// Private IP Encapsulation within IP
    PIPE,
    /// Stream Control Transmission Protocol
    SCTP,
    /// Fibre Channel
    FC,
    /// RSVP-E2E-IGNORE
    RsvpE2eIgnore,
    /// Mobility Header
    MobilityHeader,
    /// UDPLite
    UDPLite,
    /// MPLS-in-IP
    MplsInIp,
    /// MANET Protocols
    MANETProtocols,
    /// Host Identity Protocol
    HIP,
    /// Shim6 Protocol
    Shim6,
    /// Wrapped Encapsulating Security Payload
    WESP,
    /// Robust Header Compression
    ROHC,
    /// Ethernet
    Ethernet,
    /// AGGFRAG Encapsulation payload for ESP
    AGGFRAG,
    /// Network Service Header
    NSH,
    /// Unknown
    Unknown,
}

impl AIPN {
    /// The canonical numeric code of this variant in the registry;
    /// `Unknown` is backed by the reserved code 255.
    pub open spec fn spec_code(self) -> u8 {
        match self {
            AIPN::HOPOPT => 0,
            AIPN::ICMP => 1,
            AIPN::IGMP => 2,
            AIPN::GGP => 3,
            AIPN::IPv4 => 4,
            AIPN::ST => 5,
            AIPN::TCP => 6,
            AIPN::CBT => 7,
            AIPN::EGP => 8,
            AIPN::IGP => 9,
            AIPN::BbnRccMon => 10,
            AIPN::NvpIi => 11,
            AIPN::PUP => 12,
            AIPN::ARGUS => 13,
            AIPN::EMCON => 14,
            AIPN::XNET => 15,
            AIPN::CHAOS => 16,
            AIPN::UDP => 17,
            AIPN::MUX => 18,
            AIPN::DcnMeas => 19,
            AIPN::HMP => 20,
            AIPN::PRM => 21,
            AIPN::XnsIdp => 22,
            AIPN::Trunk1 => 23,
            AIPN::Trunk2 => 24,
            AIPN::Leaf1 => 25,
            AIPN::Leaf2 => 26,
            AIPN::RDP => 27,
            AIPN::IRTP => 28,
            AIPN::IsoTp4 => 29,
            AIPN::NETBLT => 30,
            AIPN::MfeNsp => 31,
            AIPN::MeritInp => 32,
            AIPN::DCCP => 33,
            AIPN::ThreePC => 34,
            AIPN::IDPR => 35,
            AIPN::XTP => 36,
            AIPN::DDP => 37,
            AIPN::IdprCmtp => 38,
            AIPN::TpPlusPlus => 39,
            AIPN::IL => 40,
            AIPN::IPv6 => 41,
            AIPN::SDRP => 42,
            AIPN::Ipv6Route => 43,
            AIPN::Ipv6Frag => 44,
            AIPN::IDRP => 45,
            AIPN::RSVP => 46,
            AIPN::GRE => 47,
            AIPN::DSR => 48,
            AIPN::BNA => 49,
            AIPN::ESP => 50,
            AIPN::AH => 51,
            AIPN::INlsp => 52,
            AIPN::SWIPE => 53,
            AIPN::NARP => 54,
            AIPN::MinIpv4 => 55,
            AIPN::TLSP => 56,
            AIPN::SKIP => 57,
            AIPN::Ipv6Icmp => 58,
            AIPN::Ipv6NoNxt => 59,
            AIPN::Ipv6Opts => 60,
            AIPN::AnyHostInternalProtocol => 61,
            AIPN::CFTP => 62,
            AIPN::AnyLocalNetwork => 63,
            AIPN::SatExpak => 64,
            AIPN::KRYPTOLAN => 65,
            AIPN::RDVI => 66,
            AIPN::IPPC => 67,
            AIPN::AnyDistributedFileSystem => 68,
            AIPN::SatMon => 69,
            AIPN::VISA => 70,
            AIPN::IPCV => 71,
            AIPN::CPNX => 72,
            AIPN::CPHB => 73,
            AIPN::WSN => 74,
            AIPN::PVP => 75,
            AIPN::BrSatMon => 76,
            AIPN::SunNd => 77,
            AIPN::WbMon => 78,
            AIPN::WbExpak => 79,
            AIPN::IsoIp => 80,
            AIPN::VMTP => 81,
            AIPN::SecureVmtp => 82,
            AIPN::VINES => 83,
            AIPN::IPTM => 84,
            AIPN::NsfnetIgp => 85,
            AIPN::DGP => 86,
            AIPN::TCF => 87,
            AIPN::EIGRP => 88,
            AIPN::OSPFIGP => 89,
            AIPN::SpriteRpc => 90,
            AIPN::LARP => 91,
            AIPN::MTP => 92,
            AIPN::AX25 => 93,
            AIPN::IPIP => 94,
            AIPN::MICP => 95,
            AIPN::SccSp => 96,
            AIPN::ETHERIP => 97,
            AIPN::ENCAP => 98,
            AIPN::AnyPrivateEncryptionScheme => 99,
            AIPN::GMTP => 100,
            AIPN::IFMP => 101,
            AIPN::PNNI => 102,
            AIPN::PIM => 103,
            AIPN::ARIS => 104,
            AIPN::SCP => 105,
            AIPN::QNX => 106,
            AIPN::AN => 107,
            AIPN::IPComp => 108,
            AIPN::SNP => 109,
            AIPN::CompaqPeer => 110,
            AIPN::IpxInIp => 111,
            AIPN::VRRP => 112,
            AIPN::PGM => 113,
            AIPN::Any0HopProtocol => 114,
            AIPN::L2TP => 115,
            AIPN::DDX => 116,
            AIPN::IATP => 117,
            AIPN::STP => 118,
            AIPN::SRP => 119,
            AIPN::UTI => 120,
            AIPN::SMP => 121,
            AIPN::SM => 122,
            AIPN::PTP => 123,
            AIPN::IsisOverIpv4 => 124,
            AIPN::FIRE => 125,
            AIPN::CRTP => 126,
            AIPN::CRUDP => 127,
            AIPN::SSCOPMCE => 128,
            AIPN::IPLT => 129,
            AIPN::SPS => 130,
            AIPN::PIPE => 131,
            AIPN::SCTP => 132,
            AIPN::FC => 133,
            AIPN::RsvpE2eIgnore => 134,
            AIPN::MobilityHeader => 135,
            AIPN::UDPLite => 136,
            AIPN::MplsInIp => 137,
            AIPN::MANETProtocols => 138,
            AIPN::HIP => 139,
            AIPN::Shim6 => 140,
            AIPN::WESP => 141,
            AIPN::ROHC => 142,
            AIPN::Ethernet => 143,
            AIPN::AGGFRAG => 144,
            AIPN::NSH => 145,
            AIPN::Unknown => 255,
        }
    }

    /// Returns the canonical numeric code of this variant.
    pub fn code(self) -> (c: u8)
        ensures
            c == self.spec_code(),
    {
        match self {
            AIPN::HOPOPT => 0,
            AIPN::ICMP => 1,
            AIPN::IGMP => 2,
            AIPN::GGP => 3,
            AIPN::IPv4 => 4,
            AIPN::ST => 5,
            AIPN::TCP => 6,
            AIPN::CBT => 7,
            AIPN::EGP => 8,
            AIPN::IGP => 9,
            AIPN::BbnRccMon => 10,
            AIPN::NvpIi => 11,
            AIPN::PUP => 12,
            AIPN::ARGUS => 13,
            AIPN::EMCON => 14,
            AIPN::XNET => 15,
            AIPN::CHAOS => 16,
            AIPN::UDP => 17,
            AIPN::MUX => 18,
            AIPN::DcnMeas => 19,
            AIPN::HMP => 20,
            AIPN::PRM => 21,
            AIPN::XnsIdp => 22,
            AIPN::Trunk1 => 23,
            AIPN::Trunk2 => 24,
            AIPN::Leaf1 => 25,
            AIPN::Leaf2 => 26,
            AIPN::RDP => 27,
            AIPN::IRTP => 28,
            AIPN::IsoTp4 => 29,
            AIPN::NETBLT => 30,
            AIPN::MfeNsp => 31,
            AIPN::MeritInp => 32,
            AIPN::DCCP => 33,
            AIPN::ThreePC => 34,
            AIPN::IDPR => 35,
            AIPN::XTP => 36,
            AIPN::DDP => 37,
            AIPN::IdprCmtp => 38,
            AIPN::TpPlusPlus => 39,
            AIPN::IL => 40,
            AIPN::IPv6 => 41,
            AIPN::SDRP => 42,
            AIPN::Ipv6Route => 43,
            AIPN::Ipv6Frag => 44,
            AIPN::IDRP => 45,
            AIPN::RSVP => 46,
            AIPN::GRE => 47,
            AIPN::DSR => 48,
            AIPN::BNA => 49,
            AIPN::ESP => 50,
            AIPN::AH => 51,
            AIPN::INlsp => 52,
            AIPN::SWIPE => 53,
            AIPN::NARP => 54,
            AIPN::MinIpv4 => 55,
            AIPN::TLSP => 56,
            AIPN::SKIP => 57,
            AIPN::Ipv6Icmp => 58,
            AIPN::Ipv6NoNxt => 59,
            AIPN::Ipv6Opts => 60,
            AIPN::AnyHostInternalProtocol => 61,
            AIPN::CFTP => 62,
            AIPN::AnyLocalNetwork => 63,
            AIPN::SatExpak => 64,
            AIPN::KRYPTOLAN => 65,
            AIPN::RDVI => 66,
            AIPN::IPPC => 67,
            AIPN::AnyDistributedFileSystem => 68,
            AIPN::SatMon => 69,
            AIPN::VISA => 70,
            AIPN::IPCV => 71,
            AIPN::CPNX => 72,
            AIPN::CPHB => 73,
            AIPN::WSN => 74,
            AIPN::PVP => 75,
            AIPN::BrSatMon => 76,
            AIPN::SunNd => 77,
            AIPN::WbMon => 78,
            AIPN::WbExpak => 79,
            AIPN::IsoIp => 80,
            AIPN::VMTP => 81,
            AIPN::SecureVmtp => 82,
            AIPN::VINES => 83,
            AIPN::IPTM => 84,
            AIPN::NsfnetIgp => 85,
            AIPN::DGP => 86,
            AIPN::TCF => 87,
            AIPN::EIGRP => 88,
            AIPN::OSPFIGP => 89,
            AIPN::SpriteRpc => 90,
            AIPN::LARP => 91,
            AIPN::MTP => 92,
            AIPN::AX25 => 93,
            AIPN::IPIP => 94,
            AIPN::MICP => 95,
            AIPN::SccSp => 96,
            AIPN::ETHERIP => 97,
            AIPN::ENCAP => 98,
            AIPN::AnyPrivateEncryptionScheme => 99,
            AIPN::GMTP => 100,
            AIPN::IFMP => 101,
            AIPN::PNNI => 102,
            AIPN::PIM => 103,
            AIPN::ARIS => 104,
            AIPN::SCP => 105,
            AIPN::QNX => 106,
            AIPN::AN => 107,
            AIPN::IPComp => 108,
            AIPN::SNP => 109,
            AIPN::CompaqPeer => 110,
            AIPN::IpxInIp => 111,
            AIPN::VRRP => 112,
            AIPN::PGM => 113,
            AIPN::Any0HopProtocol => 114,
            AIPN::L2TP => 115,
            AIPN::DDX => 116,
            AIPN::IATP => 117,
            AIPN::STP => 118,
            AIPN::SRP => 119,
            AIPN::UTI => 120,
            AIPN::SMP => 121,
            AIPN::SM => 122,
            AIPN::PTP => 123,
            AIPN::IsisOverIpv4 => 124,
            AIPN::FIRE => 125,
            AIPN::CRTP => 126,
            AIPN::CRUDP => 127,
            AIPN::SSCOPMCE => 128,
            AIPN::IPLT => 129,
            AIPN::SPS => 130,
            AIPN::PIPE => 131,
            AIPN::SCTP => 132,
            AIPN::FC => 133,
            AIPN::RsvpE2eIgnore => 134,
            AIPN::MobilityHeader => 135,
            AIPN::UDPLite => 136,
            AIPN::MplsInIp => 137,
            AIPN::MANETProtocols => 138,
            AIPN::HIP => 139,
            AIPN::Shim6 => 140,
            AIPN::WESP => 141,
            AIPN::ROHC => 142,
            AIPN::Ethernet => 143,
            AIPN::AGGFRAG => 144,
            AIPN::NSH => 145,
            AIPN::Unknown => 255,
        }
    }

    /// The variant a numeric code maps to: the unique named variant whose
    /// canonical code equals `number`, or `Unknown` when no assignment exists.
    pub open spec fn spec_from_u8(number: u8) -> AIPN {
        match number {
            0 => AIPN::HOPOPT,
            1 => AIPN::ICMP,
            2 => AIPN::IGMP,
            3 => AIPN::GGP,
            4 => AIPN::IPv4,
            5 => AIPN::ST,
            6 => AIPN::TCP,
            7 => AIPN::CBT,
            8 => AIPN::EGP,
            9 => AIPN::IGP,
            10 => AIPN::BbnRccMon,
            11 => AIPN::NvpIi,
            12 => AIPN::PUP,
            13 => AIPN::ARGUS,
            14 => AIPN::EMCON,
            15 => AIPN::XNET,
            16 => AIPN::CHAOS,
            17 => AIPN::UDP,
            18 => AIPN::MUX,
            19 => AIPN::DcnMeas,
            20 => AIPN::HMP,
            21 => AIPN::PRM,
            22 => AIPN::XnsIdp,
            23 => AIPN::Trunk1,
            24 => AIPN::Trunk2,
            25 => AIPN::Leaf1,
            26 => AIPN::Leaf2,
            27 => AIPN::RDP,
            28 => AIPN::IRTP,
            29 => AIPN::IsoTp4,
            30 => AIPN::NETBLT,
            31 => AIPN::MfeNsp,
            32 => AIPN::MeritInp,
            33 => AIPN::DCCP,
            34 => AIPN::ThreePC,
            35 => AIPN::IDPR,
            36 => AIPN::XTP,
            37 => AIPN::DDP,
            38 => AIPN::IdprCmtp,
            39 => AIPN::TpPlusPlus,
            40 => AIPN::IL,
            41 => AIPN::IPv6,
            42 => AIPN::SDRP,
            43 => AIPN::Ipv6Route,
            44 => AIPN::Ipv6Frag,
            45 => AIPN::IDRP,
            46 => AIPN::RSVP,
            47 => AIPN::GRE,
            48 => AIPN::DSR,
            49 => AIPN::BNA,
            50 => AIPN::ESP,
            51 => AIPN::AH,
            52 => AIPN::INlsp,
            53 => AIPN::SWIPE,
            54 => AIPN::NARP,
            55 => AIPN::MinIpv4,
            56 => AIPN::TLSP,
            57 => AIPN::SKIP,
            58 => AIPN::Ipv6Icmp,
            59 => AIPN::Ipv6NoNxt,
            60 => AIPN::Ipv6Opts,
            61 => AIPN::AnyHostInternalProtocol,
            62 => AIPN::CFTP,
            63 => AIPN::AnyLocalNetwork,
            64 => AIPN::SatExpak,
            65 => AIPN::KRYPTOLAN,
            66 => AIPN::RDVI,
            67 => AIPN::IPPC,
            68 => AIPN::AnyDistributedFileSystem,
            69 => AIPN::SatMon,
            70 => AIPN::VISA,
            71 => AIPN::IPCV,
            72 => AIPN::CPNX,
            73 => AIPN::CPHB,
            74 => AIPN::WSN,
            75 => AIPN::PVP,
            76 => AIPN::BrSatMon,
            77 => AIPN::SunNd,
            78 => AIPN::WbMon,
            79 => AIPN::WbExpak,
            80 => AIPN::IsoIp,
            81 => AIPN::VMTP,
            82 => AIPN::SecureVmtp,
            83 => AIPN::VINES,
            84 => AIPN::IPTM,
            85 => AIPN::NsfnetIgp,
            86 => AIPN::DGP,
            87 => AIPN::TCF,
            88 => AIPN::EIGRP,
            89 => AIPN::OSPFIGP,
            90 => AIPN::SpriteRpc,
            91 => AIPN::LARP,
            92 => AIPN::MTP,
            93 => AIPN::AX25,
            94 => AIPN::IPIP,
            95 => AIPN::MICP,
            96 => AIPN::SccSp,
            97 => AIPN::ETHERIP,
            98 => AIPN::ENCAP,
            99 => AIPN::AnyPrivateEncryptionScheme,
            100 => AIPN::GMTP,
            101 => AIPN::IFMP,
            102 => AIPN::PNNI,
            103 => AIPN::PIM,
            104 => AIPN::ARIS,
            105 => AIPN::SCP,
            106 => AIPN::QNX,
            107 => AIPN::AN,
            108 => AIPN::IPComp,
            109 => AIPN::SNP,
            110 => AIPN::CompaqPeer,
            111 => AIPN::IpxInIp,
            112 => AIPN::VRRP,
            113 => AIPN::PGM,
            114 => AIPN::Any0HopProtocol,
            115 => AIPN::L2TP,
            116 => AIPN::DDX,
            117 => AIPN::IATP,
            118 => AIPN::STP,
            119 => AIPN::SRP,
            120 => AIPN::UTI,
            121 => AIPN::SMP,
            122 => AIPN::SM,
            123 => AIPN::PTP,
            124 => AIPN::IsisOverIpv4,
            125 => AIPN::FIRE,
            126 => AIPN::CRTP,
            127 => AIPN::CRUDP,
            128 => AIPN::SSCOPMCE,
            129 => AIPN::IPLT,
            130 => AIPN::SPS,
            131 => AIPN::PIPE,
            132 => AIPN::SCTP,
            133 => AIPN::FC,
            134 => AIPN::RsvpE2eIgnore,
            135 => AIPN::MobilityHeader,
            136 => AIPN::UDPLite,
            137 => AIPN::MplsInIp,
            138 => AIPN::MANETProtocols,
            139 => AIPN::HIP,
            140 => AIPN::Shim6,
            141 => AIPN::WESP,
            142 => AIPN::ROHC,
            143 => AIPN::Ethernet,
            144 => AIPN::AGGFRAG,
            145 => AIPN::NSH,
            _ => AIPN::Unknown,
        }
    }

    /// Looks up a numeric protocol code. Total over the whole `u8` domain:
    /// every code yields exactly one variant, unassigned codes yield `Unknown`.
    pub fn from_u8(number: u8) -> (r: AIPN)
        ensures
            r == AIPN::spec_from_u8(number),
    {
        match number {
            0 => AIPN::HOPOPT,
            1 => AIPN::ICMP,
            2 => AIPN::IGMP,
            3 => AIPN::GGP,
            4 => AIPN::IPv4,
            5 => AIPN::ST,
            6 => AIPN::TCP,
            7 => AIPN::CBT,
            8 => AIPN::EGP,
            9 => AIPN::IGP,
            10 => AIPN::BbnRccMon,
            11 => AIPN::NvpIi,
            12 => AIPN::PUP,
            13 => AIPN::ARGUS,
            14 => AIPN::EMCON,
            15 => AIPN::XNET,
            16 => AIPN::CHAOS,
            17 => AIPN::UDP,
            18 => AIPN::MUX,
            19 => AIPN::DcnMeas,
            20 => AIPN::HMP,
            21 => AIPN::PRM,
            22 => AIPN::XnsIdp,
            23 => AIPN::Trunk1,
            24 => AIPN::Trunk2,
            25 => AIPN::Leaf1,
            26 => AIPN::Leaf2,
            27 => AIPN::RDP,
            28 => AIPN::IRTP,
            29 => AIPN::IsoTp4,
            30 => AIPN::NETBLT,
            31 => AIPN::MfeNsp,
            32 => AIPN::MeritInp,
            33 => AIPN::DCCP,
            34 => AIPN::ThreePC,
            35 => AIPN::IDPR,
            36 => AIPN::XTP,
            37 => AIPN::DDP,
            38 => AIPN::IdprCmtp,
            39 => AIPN::TpPlusPlus,
            40 => AIPN::IL,
            41 => AIPN::IPv6,
            42 => AIPN::SDRP,
            43 => AIPN::Ipv6Route,
            44 => AIPN::Ipv6Frag,
            45 => AIPN::IDRP,
            46 => AIPN::RSVP,
            47 => AIPN::GRE,
            48 => AIPN::DSR,
            49 => AIPN::BNA,
            50 => AIPN::ESP,
            51 => AIPN::AH,
            52 => AIPN::INlsp,
            53 => AIPN::SWIPE,
            54 => AIPN::NARP,
            55 => AIPN::MinIpv4,
            56 => AIPN::TLSP,
            57 => AIPN::SKIP,
            58 => AIPN::Ipv6Icmp,
            59 => AIPN::Ipv6NoNxt,
            60 => AIPN::Ipv6Opts,
            61 => AIPN::AnyHostInternalProtocol,
            62 => AIPN::CFTP,
            63 => AIPN::AnyLocalNetwork,
            64 => AIPN::SatExpak,
            65 => AIPN::KRYPTOLAN,
            66 => AIPN::RDVI,
            67 => AIPN::IPPC,
            68 => AIPN::AnyDistributedFileSystem,
            69 => AIPN::SatMon,
            70 => AIPN::VISA,
            71 => AIPN::IPCV,
            72 => AIPN::CPNX,
            73 => AIPN::CPHB,
            74 => AIPN::WSN,
            75 => AIPN::PVP,
            76 => AIPN::BrSatMon,
            77 => AIPN::SunNd,
            78 => AIPN::WbMon,
            79 => AIPN::WbExpak,
            80 => AIPN::IsoIp,
            81 => AIPN::VMTP,
            82 => AIPN::SecureVmtp,
            83 => AIPN::VINES,
            84 => AIPN::IPTM,
            85 => AIPN::NsfnetIgp,
            86 => AIPN::DGP,
            87 => AIPN::TCF,
            88 => AIPN::EIGRP,
            89 => AIPN::OSPFIGP,
            90 => AIPN::SpriteRpc,
            91 => AIPN::LARP,
            92 => AIPN::MTP,
            93 => AIPN::AX25,
            94 => AIPN::IPIP,
            95 => AIPN::MICP,
            96 => AIPN::SccSp,
            97 => AIPN::ETHERIP,
            98 => AIPN::ENCAP,
            99 => AIPN::AnyPrivateEncryptionScheme,
            100 => AIPN::GMTP,
            101 => AIPN::IFMP,
            102 => AIPN::PNNI,
            103 => AIPN::PIM,
            104 => AIPN::ARIS,
            105 => AIPN::SCP,
            106 => AIPN::QNX,
            107 => AIPN::AN,
            108 => AIPN::IPComp,
            109 => AIPN::SNP,
            110 => AIPN::CompaqPeer,
            111 => AIPN::IpxInIp,
            112 => AIPN::VRRP,
            113 => AIPN::PGM,
            114 => AIPN::Any0HopProtocol,
            115 => AIPN::L2TP,
            116 => AIPN::DDX,
            117 => AIPN::IATP,
            118 => AIPN::STP,
            119 => AIPN::SRP,
            120 => AIPN::UTI,
            121 => AIPN::SMP,
            122 => AIPN::SM,
            123 => AIPN::PTP,
            124 => AIPN::IsisOverIpv4,
            125 => AIPN::FIRE,
            126 => AIPN::CRTP,
            127 => AIPN::CRUDP,
            128 => AIPN::SSCOPMCE,
            129 => AIPN::IPLT,
            130 => AIPN::SPS,
            131 => AIPN::PIPE,
            132 => AIPN::SCTP,
            133 => AIPN::FC,
            134 => AIPN::RsvpE2eIgnore,
            135 => AIPN::MobilityHeader,
            136 => AIPN::UDPLite,
            137 => AIPN::MplsInIp,
            138 => AIPN::MANETProtocols,
            139 => AIPN::HIP,
            140 => AIPN::Shim6,
            141 => AIPN::WESP,
            142 => AIPN::ROHC,
            143 => AIPN::Ethernet,
            144 => AIPN::AGGFRAG,
            145 => AIPN::NSH,
            _ => AIPN::Unknown,
        }
    }
}

/// A code is assigned in the registry when some named (non-`Unknown`) variant
/// has it as its canonical code.
pub open spec fn is_assigned(code: u8) -> bool {
    exists|v: AIPN| v != AIPN::Unknown && #[trigger] v.spec_code() == code
}

/// Round trip: looking up any variant's canonical code returns that same
/// variant. In particular every named variant is the image of its own code,
/// and `Unknown`'s backing code 255 maps back to `Unknown`.
pub proof fn lemma_round_trip(v: AIPN)
    ensures
        AIPN::spec_from_u8(v.spec_code()) == v,
{
}

/// Canonical codes are unique: no two distinct variants share one.
pub proof fn lemma_code_injective(a: AIPN, b: AIPN)
    requires
        a.spec_code() == b.spec_code(),
    ensures
        a == b,
{
    lemma_round_trip(a);
    lemma_round_trip(b);
}

/// A lookup that finds a named variant found the right one: its canonical
/// code is exactly the code looked up.
pub proof fn lemma_lookup_code(code: u8)
    ensures
        AIPN::spec_from_u8(code) != AIPN::Unknown ==> AIPN::spec_from_u8(code).spec_code() == code,
{
}

/// Sentinel correctness: the reserved code 255 maps to `Unknown`, and a code
/// maps to `Unknown` exactly when no named variant is assigned to it.
pub proof fn lemma_sentinel(code: u8)
    ensures
        AIPN::spec_from_u8(255) == AIPN::Unknown,
        AIPN::spec_from_u8(code) == AIPN::Unknown <==> !is_assigned(code),
{
    if is_assigned(code) {
        let v = choose|v: AIPN| v != AIPN::Unknown && #[trigger] v.spec_code() == code;
        lemma_round_trip(v);
    }
    if AIPN::spec_from_u8(code) != AIPN::Unknown {
        lemma_lookup_code(code);
        assert(AIPN::spec_from_u8(code).spec_code() == code);
    }
}

} // verus!
