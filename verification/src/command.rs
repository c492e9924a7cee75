//! The commands that the radio controller takes, and how each of them is
//! answered.
//!
//! The controller has one function for each command and returns its status at
//! once. So the answer that the host waits for is built here: a Command Complete
//! event, or a Command Status event for a command whose result comes later.
use vstd::prelude::*;

use crate::hci;
use crate::hci::{send_cc_event, send_cs_event};
use crate::ipc;
use crate::ipc::{IpcEvent, IpcHeaders};
use crate::layout::RING_BUF_SIZE;

verus! {

/// Status of a command whose parameters are not valid.
pub const STATUS_INVALID_PARAMS: u8 = 0x12;

/// A command that the controller has a function for.
#[derive(Clone, Copy, Debug, PartialEq, Eq, Structural)]
pub enum HciCommand {
    // Controller & Baseband (OGF 0x03)
    CbSetEventMask,
    CbReset,
    CbSetControllerToHostFlowControl,
    CbHostBufferSize,
    CbHostNumberOfCompletedPackets,
    CbSetEventMaskPage2,
    // Link Control (OGF 0x01)
    LcDisconnect,
    LcReadRemoteVersionInformation,
    // Informational Parameters (OGF 0x04)
    IpReadLocalVersionInformation,
    IpReadLocalSupportedCommands,
    IpReadLocalSupportedFeatures,
    IpReadBdAddr,
    // LE Controller Commands (OGF 0x08)
    LeSetEventMask,
    LeReadBufferSize,
    LeReadLocalSupportedFeatures,
    LeSetRandomAddress,
    LeSetAdvParams,
    LeReadAdvPhysicalChannelTxPower,
    LeSetAdvData,
    LeSetScanResponseData,
    LeSetAdvEnable,
    LeSetScanParams,
    LeSetScanEnable,
    LeCreateConn,
    LeCreateConnCancel,
    LeReadFilterAcceptListSize,
    LeClearFilterAcceptList,
    LeAddDeviceToFilterAcceptList,
    LeRemoveDeviceFromFilterAcceptList,
    LeConnUpdate,
    LeSetHostChannelClassification,
    LeReadChannelMap,
    LeReadRemoteFeatures,
    LeEncrypt,
    LeRand,
    LeEnableEncryption,
    LeLongTermKeyRequestReply,
    LeLongTermKeyRequestNegativeReply,
    LeReadSupportedStates,
    LeSetDataLength,
    LeReadSuggestedDefaultDataLength,
    LeWriteSuggestedDefaultDataLength,
    LeAddDeviceToResolvingList,
    LeRemoveDeviceFromResolvingList,
    LeClearResolvingList,
    LeReadResolvingListSize,
    LeSetPrivacyMode,
    LeSetAddressResolutionEnable,
    LeSetResolvablePrivateAddressTimeout,
    LeReadMaxDataLength,
    LeReadPhy,
    LeSetDefaultPhy,
    LeSetPhy,
    // LE 5.0 Extended Advertising (OGF 0x08)
    LeSetAdvSetRandomAddress,
    LeSetExtAdvParams,
    LeSetExtAdvData,
    LeSetExtAdvEnable,
    LeReadMaxAdvDataLength,
    LeReadNumberOfSupportedAdvSets,
    LeRemoveAdvSet,
    LeClearAdvSets,
    // LE 5.0 Extended Scanning (OGF 0x08)
    LeSetExtScanParams,
    LeSetExtScanEnable,
    LeExtCreateConn,
    // LE 5.0 Periodic Advertising (OGF 0x08)
    LePeriodicAdvCreateSync,
    LePeriodicAdvCreateSyncCancel,
    LePeriodicAdvTerminateSync,
    LeAddDeviceToPeriodicAdvList,
    LeRemoveDeviceFromPeriodicAdvList,
    LeClearPeriodicAdvList,
    LeReadPeriodicAdvListSize,
    LeReadTransmitPower,
    // LE 5.2 Host Feature (OGF 0x08)
    LeSetHostFeature,
    // LE 5.2 Isochronous Channels - CIS (OGF 0x08)
    LeSetCigParams,
    LeSetCigParamsTest,
    LeCreateCis,
    LeRemoveCig,
    LeAcceptCisRequest,
    LeRejectCisRequest,
    // LE 5.2 Isochronous Channels - BIS (OGF 0x08)
    LeCreateBig,
    LeCreateBigTest,
    LeTerminateBig,
    LeBigCreateSync,
    LeBigTerminateSync,
    // LE 5.2 ISO Data Path & Test (OGF 0x08)
    LeSetupIsoDataPath,
    LeRemoveIsoDataPath,
    LeIsoTransmitTest,
    LeIsoReceiveTest,
    LeIsoReadTestCounters,
    LeIsoTestEnd,
    LeReadIsoTxSync,
    LeReadIsoLinkQuality,
}

/// What a command's function takes and gives back.
#[derive(Clone, Copy, Debug, PartialEq, Eq, Structural)]
pub enum CommandShape {
    /// No parameters, no return data.
    Plain,
    /// Parameters, no return data.
    Params,
    /// No parameters, return data.
    Return,
    /// Parameters and return data.
    ParamsReturn,
    /// No parameters; the result comes later, as an event of its own.
    AsyncPlain,
    /// Parameters; the result comes later, as an event of its own.
    AsyncParams,
}

impl CommandShape {
    /// The command's function reads parameters.
    pub open spec fn takes_params(self) -> bool {
        self is Params || self is ParamsReturn || self is AsyncParams
    }

    /// The command's function gives back data besides its status.
    pub open spec fn gives_data(self) -> bool {
        self is Return || self is ParamsReturn
    }

    /// The command's result comes later.
    pub open spec fn is_async(self) -> bool {
        self is AsyncPlain || self is AsyncParams
    }
}

impl HciCommand {
    /// The opcode that names the command in a command packet.
    pub open spec fn code(self) -> u16 {
        match self {
            // Controller & Baseband (OGF 0x03)
            HciCommand::CbSetEventMask => 0x0C01,
            HciCommand::CbReset => 0x0C03,
            HciCommand::CbSetControllerToHostFlowControl => 0x0C31,
            HciCommand::CbHostBufferSize => 0x0C33,
            HciCommand::CbHostNumberOfCompletedPackets => 0x0C35,
            HciCommand::CbSetEventMaskPage2 => 0x0C63,
            // Link Control (OGF 0x01)
            HciCommand::LcDisconnect => 0x0406,
            HciCommand::LcReadRemoteVersionInformation => 0x041D,
            // Informational Parameters (OGF 0x04)
            HciCommand::IpReadLocalVersionInformation => 0x1001,
            HciCommand::IpReadLocalSupportedCommands => 0x1002,
            HciCommand::IpReadLocalSupportedFeatures => 0x1003,
            HciCommand::IpReadBdAddr => 0x1009,
            // LE Controller Commands (OGF 0x08)
            HciCommand::LeSetEventMask => 0x2001,
            HciCommand::LeReadBufferSize => 0x2002,
            HciCommand::LeReadLocalSupportedFeatures => 0x2003,
            HciCommand::LeSetRandomAddress => 0x2005,
            HciCommand::LeSetAdvParams => 0x2006,
            HciCommand::LeReadAdvPhysicalChannelTxPower => 0x2007,
            HciCommand::LeSetAdvData => 0x2008,
            HciCommand::LeSetScanResponseData => 0x2009,
            HciCommand::LeSetAdvEnable => 0x200A,
            HciCommand::LeSetScanParams => 0x200B,
            HciCommand::LeSetScanEnable => 0x200C,
            HciCommand::LeCreateConn => 0x200D,
            HciCommand::LeCreateConnCancel => 0x200E,
            HciCommand::LeReadFilterAcceptListSize => 0x200F,
            HciCommand::LeClearFilterAcceptList => 0x2010,
            HciCommand::LeAddDeviceToFilterAcceptList => 0x2011,
            HciCommand::LeRemoveDeviceFromFilterAcceptList => 0x2012,
            HciCommand::LeConnUpdate => 0x2013,
            HciCommand::LeSetHostChannelClassification => 0x2014,
            HciCommand::LeReadChannelMap => 0x2015,
            HciCommand::LeReadRemoteFeatures => 0x2016,
            HciCommand::LeEncrypt => 0x2017,
            HciCommand::LeRand => 0x2018,
            HciCommand::LeEnableEncryption => 0x2019,
            HciCommand::LeLongTermKeyRequestReply => 0x201A,
            HciCommand::LeLongTermKeyRequestNegativeReply => 0x201B,
            HciCommand::LeReadSupportedStates => 0x201C,
            HciCommand::LeSetDataLength => 0x2022,
            HciCommand::LeReadSuggestedDefaultDataLength => 0x2023,
            HciCommand::LeWriteSuggestedDefaultDataLength => 0x2024,
            HciCommand::LeAddDeviceToResolvingList => 0x2027,
            HciCommand::LeRemoveDeviceFromResolvingList => 0x2028,
            HciCommand::LeClearResolvingList => 0x2029,
            HciCommand::LeReadResolvingListSize => 0x202A,
            HciCommand::LeSetPrivacyMode => 0x202C,
            HciCommand::LeSetAddressResolutionEnable => 0x202D,
            HciCommand::LeSetResolvablePrivateAddressTimeout => 0x202E,
            HciCommand::LeReadMaxDataLength => 0x202F,
            HciCommand::LeReadPhy => 0x2030,
            HciCommand::LeSetDefaultPhy => 0x2031,
            HciCommand::LeSetPhy => 0x2032,
            // LE 5.0 Extended Advertising (OGF 0x08)
            HciCommand::LeSetAdvSetRandomAddress => 0x2035,
            HciCommand::LeSetExtAdvParams => 0x2036,
            HciCommand::LeSetExtAdvData => 0x2037,
            HciCommand::LeSetExtAdvEnable => 0x2039,
            HciCommand::LeReadMaxAdvDataLength => 0x203A,
            HciCommand::LeReadNumberOfSupportedAdvSets => 0x203B,
            HciCommand::LeRemoveAdvSet => 0x203C,
            HciCommand::LeClearAdvSets => 0x203D,
            // LE 5.0 Extended Scanning (OGF 0x08)
            HciCommand::LeSetExtScanParams => 0x2041,
            HciCommand::LeSetExtScanEnable => 0x2042,
            HciCommand::LeExtCreateConn => 0x2043,
            // LE 5.0 Periodic Advertising (OGF 0x08)
            HciCommand::LePeriodicAdvCreateSync => 0x2044,
            HciCommand::LePeriodicAdvCreateSyncCancel => 0x2045,
            HciCommand::LePeriodicAdvTerminateSync => 0x2046,
            HciCommand::LeAddDeviceToPeriodicAdvList => 0x2047,
            HciCommand::LeRemoveDeviceFromPeriodicAdvList => 0x2048,
            HciCommand::LeClearPeriodicAdvList => 0x2049,
            HciCommand::LeReadPeriodicAdvListSize => 0x204A,
            HciCommand::LeReadTransmitPower => 0x204B,
            // LE 5.2 Host Feature (OGF 0x08)
            HciCommand::LeSetHostFeature => 0x2059,
            // LE 5.2 Isochronous Channels - CIS (OGF 0x08)
            HciCommand::LeSetCigParams => 0x2062,
            HciCommand::LeSetCigParamsTest => 0x2063,
            HciCommand::LeCreateCis => 0x2064,
            HciCommand::LeRemoveCig => 0x2065,
            HciCommand::LeAcceptCisRequest => 0x2066,
            HciCommand::LeRejectCisRequest => 0x2067,
            // LE 5.2 Isochronous Channels - BIS (OGF 0x08)
            HciCommand::LeCreateBig => 0x2068,
            HciCommand::LeCreateBigTest => 0x2069,
            HciCommand::LeTerminateBig => 0x206A,
            HciCommand::LeBigCreateSync => 0x206B,
            HciCommand::LeBigTerminateSync => 0x206C,
            // LE 5.2 ISO Data Path & Test (OGF 0x08)
            HciCommand::LeSetupIsoDataPath => 0x206E,
            HciCommand::LeRemoveIsoDataPath => 0x206F,
            HciCommand::LeIsoTransmitTest => 0x2070,
            HciCommand::LeIsoReceiveTest => 0x2071,
            HciCommand::LeIsoReadTestCounters => 0x2072,
            HciCommand::LeIsoTestEnd => 0x2073,
            HciCommand::LeReadIsoTxSync => 0x2075,
            HciCommand::LeReadIsoLinkQuality => 0x2076,
        }
    }

    /// What the command's function takes and gives back.
    pub open spec fn form(self) -> CommandShape {
        match self {
            HciCommand::CbReset
            | HciCommand::LeClearFilterAcceptList
            | HciCommand::LeClearResolvingList
            | HciCommand::LeClearAdvSets
            | HciCommand::LeClearPeriodicAdvList => CommandShape::Plain,
            HciCommand::CbSetEventMask
            | HciCommand::CbSetControllerToHostFlowControl
            | HciCommand::CbHostBufferSize
            | HciCommand::CbHostNumberOfCompletedPackets
            | HciCommand::CbSetEventMaskPage2
            | HciCommand::LeSetEventMask
            | HciCommand::LeSetRandomAddress
            | HciCommand::LeSetAdvParams
            | HciCommand::LeSetAdvData
            | HciCommand::LeSetScanResponseData
            | HciCommand::LeSetAdvEnable
            | HciCommand::LeSetScanParams
            | HciCommand::LeSetScanEnable
            | HciCommand::LeAddDeviceToFilterAcceptList
            | HciCommand::LeRemoveDeviceFromFilterAcceptList
            | HciCommand::LeSetHostChannelClassification
            | HciCommand::LeWriteSuggestedDefaultDataLength
            | HciCommand::LeAddDeviceToResolvingList
            | HciCommand::LeRemoveDeviceFromResolvingList
            | HciCommand::LeSetPrivacyMode
            | HciCommand::LeSetAddressResolutionEnable
            | HciCommand::LeSetResolvablePrivateAddressTimeout
            | HciCommand::LeSetDefaultPhy
            | HciCommand::LeSetAdvSetRandomAddress
            | HciCommand::LeSetExtAdvData
            | HciCommand::LeSetExtAdvEnable
            | HciCommand::LeRemoveAdvSet
            | HciCommand::LeSetExtScanParams
            | HciCommand::LeSetExtScanEnable
            | HciCommand::LePeriodicAdvTerminateSync
            | HciCommand::LeAddDeviceToPeriodicAdvList
            | HciCommand::LeRemoveDeviceFromPeriodicAdvList
            | HciCommand::LeSetHostFeature
            | HciCommand::LeAcceptCisRequest => CommandShape::Params,
            HciCommand::IpReadLocalVersionInformation
            | HciCommand::IpReadLocalSupportedCommands
            | HciCommand::IpReadLocalSupportedFeatures
            | HciCommand::IpReadBdAddr
            | HciCommand::LeReadBufferSize
            | HciCommand::LeReadLocalSupportedFeatures
            | HciCommand::LeReadAdvPhysicalChannelTxPower
            | HciCommand::LeReadFilterAcceptListSize
            | HciCommand::LeRand
            | HciCommand::LeReadSupportedStates
            | HciCommand::LeReadSuggestedDefaultDataLength
            | HciCommand::LeReadResolvingListSize
            | HciCommand::LeReadMaxDataLength
            | HciCommand::LeReadMaxAdvDataLength
            | HciCommand::LeReadNumberOfSupportedAdvSets
            | HciCommand::LeReadPeriodicAdvListSize
            | HciCommand::LeReadTransmitPower => CommandShape::Return,
            HciCommand::LeReadChannelMap
            | HciCommand::LeEncrypt
            | HciCommand::LeLongTermKeyRequestReply
            | HciCommand::LeLongTermKeyRequestNegativeReply
            | HciCommand::LeSetDataLength
            | HciCommand::LeReadPhy
            | HciCommand::LeSetExtAdvParams
            | HciCommand::LeSetCigParams
            | HciCommand::LeSetCigParamsTest
            | HciCommand::LeRemoveCig
            | HciCommand::LeRejectCisRequest
            | HciCommand::LeBigTerminateSync
            | HciCommand::LeSetupIsoDataPath
            | HciCommand::LeRemoveIsoDataPath
            | HciCommand::LeIsoTransmitTest
            | HciCommand::LeIsoReceiveTest
            | HciCommand::LeIsoReadTestCounters
            | HciCommand::LeIsoTestEnd
            | HciCommand::LeReadIsoTxSync
            | HciCommand::LeReadIsoLinkQuality => CommandShape::ParamsReturn,
            HciCommand::LeCreateConnCancel
            | HciCommand::LePeriodicAdvCreateSyncCancel => CommandShape::AsyncPlain,
            HciCommand::LcDisconnect
            | HciCommand::LcReadRemoteVersionInformation
            | HciCommand::LeCreateConn
            | HciCommand::LeConnUpdate
            | HciCommand::LeReadRemoteFeatures
            | HciCommand::LeEnableEncryption
            | HciCommand::LeSetPhy
            | HciCommand::LeExtCreateConn
            | HciCommand::LePeriodicAdvCreateSync
            | HciCommand::LeCreateCis
            | HciCommand::LeCreateBig
            | HciCommand::LeCreateBigTest
            | HciCommand::LeTerminateBig
            | HciCommand::LeBigCreateSync => CommandShape::AsyncParams,
        }
    }

    /// The command that `opcode` names, if the controller has a function for it.
    pub fn from_opcode(opcode: u16) -> (command: Option<HciCommand>)
        ensures
            forall|c: HciCommand| #[trigger] c.code() == opcode <==> command == Some(c),
    {
        match opcode {
            // Controller & Baseband (OGF 0x03)
            0x0C01 => Some(HciCommand::CbSetEventMask),
            0x0C03 => Some(HciCommand::CbReset),
            0x0C31 => Some(HciCommand::CbSetControllerToHostFlowControl),
            0x0C33 => Some(HciCommand::CbHostBufferSize),
            0x0C35 => Some(HciCommand::CbHostNumberOfCompletedPackets),
            0x0C63 => Some(HciCommand::CbSetEventMaskPage2),
            // Link Control (OGF 0x01)
            0x0406 => Some(HciCommand::LcDisconnect),
            0x041D => Some(HciCommand::LcReadRemoteVersionInformation),
            // Informational Parameters (OGF 0x04)
            0x1001 => Some(HciCommand::IpReadLocalVersionInformation),
            0x1002 => Some(HciCommand::IpReadLocalSupportedCommands),
            0x1003 => Some(HciCommand::IpReadLocalSupportedFeatures),
            0x1009 => Some(HciCommand::IpReadBdAddr),
            // LE Controller Commands (OGF 0x08)
            0x2001 => Some(HciCommand::LeSetEventMask),
            0x2002 => Some(HciCommand::LeReadBufferSize),
            0x2003 => Some(HciCommand::LeReadLocalSupportedFeatures),
            0x2005 => Some(HciCommand::LeSetRandomAddress),
            0x2006 => Some(HciCommand::LeSetAdvParams),
            0x2007 => Some(HciCommand::LeReadAdvPhysicalChannelTxPower),
            0x2008 => Some(HciCommand::LeSetAdvData),
            0x2009 => Some(HciCommand::LeSetScanResponseData),
            0x200A => Some(HciCommand::LeSetAdvEnable),
            0x200B => Some(HciCommand::LeSetScanParams),
            0x200C => Some(HciCommand::LeSetScanEnable),
            0x200D => Some(HciCommand::LeCreateConn),
            0x200E => Some(HciCommand::LeCreateConnCancel),
            0x200F => Some(HciCommand::LeReadFilterAcceptListSize),
            0x2010 => Some(HciCommand::LeClearFilterAcceptList),
            0x2011 => Some(HciCommand::LeAddDeviceToFilterAcceptList),
            0x2012 => Some(HciCommand::LeRemoveDeviceFromFilterAcceptList),
            0x2013 => Some(HciCommand::LeConnUpdate),
            0x2014 => Some(HciCommand::LeSetHostChannelClassification),
            0x2015 => Some(HciCommand::LeReadChannelMap),
            0x2016 => Some(HciCommand::LeReadRemoteFeatures),
            0x2017 => Some(HciCommand::LeEncrypt),
            0x2018 => Some(HciCommand::LeRand),
            0x2019 => Some(HciCommand::LeEnableEncryption),
            0x201A => Some(HciCommand::LeLongTermKeyRequestReply),
            0x201B => Some(HciCommand::LeLongTermKeyRequestNegativeReply),
            0x201C => Some(HciCommand::LeReadSupportedStates),
            0x2022 => Some(HciCommand::LeSetDataLength),
            0x2023 => Some(HciCommand::LeReadSuggestedDefaultDataLength),
            0x2024 => Some(HciCommand::LeWriteSuggestedDefaultDataLength),
            0x2027 => Some(HciCommand::LeAddDeviceToResolvingList),
            0x2028 => Some(HciCommand::LeRemoveDeviceFromResolvingList),
            0x2029 => Some(HciCommand::LeClearResolvingList),
            0x202A => Some(HciCommand::LeReadResolvingListSize),
            0x202C => Some(HciCommand::LeSetPrivacyMode),
            0x202D => Some(HciCommand::LeSetAddressResolutionEnable),
            0x202E => Some(HciCommand::LeSetResolvablePrivateAddressTimeout),
            0x202F => Some(HciCommand::LeReadMaxDataLength),
            0x2030 => Some(HciCommand::LeReadPhy),
            0x2031 => Some(HciCommand::LeSetDefaultPhy),
            0x2032 => Some(HciCommand::LeSetPhy),
            // LE 5.0 Extended Advertising (OGF 0x08)
            0x2035 => Some(HciCommand::LeSetAdvSetRandomAddress),
            0x2036 => Some(HciCommand::LeSetExtAdvParams),
            0x2037 => Some(HciCommand::LeSetExtAdvData),
            0x2039 => Some(HciCommand::LeSetExtAdvEnable),
            0x203A => Some(HciCommand::LeReadMaxAdvDataLength),
            0x203B => Some(HciCommand::LeReadNumberOfSupportedAdvSets),
            0x203C => Some(HciCommand::LeRemoveAdvSet),
            0x203D => Some(HciCommand::LeClearAdvSets),
            // LE 5.0 Extended Scanning (OGF 0x08)
            0x2041 => Some(HciCommand::LeSetExtScanParams),
            0x2042 => Some(HciCommand::LeSetExtScanEnable),
            0x2043 => Some(HciCommand::LeExtCreateConn),
            // LE 5.0 Periodic Advertising (OGF 0x08)
            0x2044 => Some(HciCommand::LePeriodicAdvCreateSync),
            0x2045 => Some(HciCommand::LePeriodicAdvCreateSyncCancel),
            0x2046 => Some(HciCommand::LePeriodicAdvTerminateSync),
            0x2047 => Some(HciCommand::LeAddDeviceToPeriodicAdvList),
            0x2048 => Some(HciCommand::LeRemoveDeviceFromPeriodicAdvList),
            0x2049 => Some(HciCommand::LeClearPeriodicAdvList),
            0x204A => Some(HciCommand::LeReadPeriodicAdvListSize),
            0x204B => Some(HciCommand::LeReadTransmitPower),
            // LE 5.2 Host Feature (OGF 0x08)
            0x2059 => Some(HciCommand::LeSetHostFeature),
            // LE 5.2 Isochronous Channels - CIS (OGF 0x08)
            0x2062 => Some(HciCommand::LeSetCigParams),
            0x2063 => Some(HciCommand::LeSetCigParamsTest),
            0x2064 => Some(HciCommand::LeCreateCis),
            0x2065 => Some(HciCommand::LeRemoveCig),
            0x2066 => Some(HciCommand::LeAcceptCisRequest),
            0x2067 => Some(HciCommand::LeRejectCisRequest),
            // LE 5.2 Isochronous Channels - BIS (OGF 0x08)
            0x2068 => Some(HciCommand::LeCreateBig),
            0x2069 => Some(HciCommand::LeCreateBigTest),
            0x206A => Some(HciCommand::LeTerminateBig),
            0x206B => Some(HciCommand::LeBigCreateSync),
            0x206C => Some(HciCommand::LeBigTerminateSync),
            // LE 5.2 ISO Data Path & Test (OGF 0x08)
            0x206E => Some(HciCommand::LeSetupIsoDataPath),
            0x206F => Some(HciCommand::LeRemoveIsoDataPath),
            0x2070 => Some(HciCommand::LeIsoTransmitTest),
            0x2071 => Some(HciCommand::LeIsoReceiveTest),
            0x2072 => Some(HciCommand::LeIsoReadTestCounters),
            0x2073 => Some(HciCommand::LeIsoTestEnd),
            0x2075 => Some(HciCommand::LeReadIsoTxSync),
            0x2076 => Some(HciCommand::LeReadIsoLinkQuality),
            _ => None,
        }
    }

    /// The opcode that names the command in a command packet.
    pub fn opcode(self) -> (opcode: u16)
        ensures
            opcode == self.code(),
    {
        match self {
            // Controller & Baseband (OGF 0x03)
            HciCommand::CbSetEventMask => 0x0C01,
            HciCommand::CbReset => 0x0C03,
            HciCommand::CbSetControllerToHostFlowControl => 0x0C31,
            HciCommand::CbHostBufferSize => 0x0C33,
            HciCommand::CbHostNumberOfCompletedPackets => 0x0C35,
            HciCommand::CbSetEventMaskPage2 => 0x0C63,
            // Link Control (OGF 0x01)
            HciCommand::LcDisconnect => 0x0406,
            HciCommand::LcReadRemoteVersionInformation => 0x041D,
            // Informational Parameters (OGF 0x04)
            HciCommand::IpReadLocalVersionInformation => 0x1001,
            HciCommand::IpReadLocalSupportedCommands => 0x1002,
            HciCommand::IpReadLocalSupportedFeatures => 0x1003,
            HciCommand::IpReadBdAddr => 0x1009,
            // LE Controller Commands (OGF 0x08)
            HciCommand::LeSetEventMask => 0x2001,
            HciCommand::LeReadBufferSize => 0x2002,
            HciCommand::LeReadLocalSupportedFeatures => 0x2003,
            HciCommand::LeSetRandomAddress => 0x2005,
            HciCommand::LeSetAdvParams => 0x2006,
            HciCommand::LeReadAdvPhysicalChannelTxPower => 0x2007,
            HciCommand::LeSetAdvData => 0x2008,
            HciCommand::LeSetScanResponseData => 0x2009,
            HciCommand::LeSetAdvEnable => 0x200A,
            HciCommand::LeSetScanParams => 0x200B,
            HciCommand::LeSetScanEnable => 0x200C,
            HciCommand::LeCreateConn => 0x200D,
            HciCommand::LeCreateConnCancel => 0x200E,
            HciCommand::LeReadFilterAcceptListSize => 0x200F,
            HciCommand::LeClearFilterAcceptList => 0x2010,
            HciCommand::LeAddDeviceToFilterAcceptList => 0x2011,
            HciCommand::LeRemoveDeviceFromFilterAcceptList => 0x2012,
            HciCommand::LeConnUpdate => 0x2013,
            HciCommand::LeSetHostChannelClassification => 0x2014,
            HciCommand::LeReadChannelMap => 0x2015,
            HciCommand::LeReadRemoteFeatures => 0x2016,
            HciCommand::LeEncrypt => 0x2017,
            HciCommand::LeRand => 0x2018,
            HciCommand::LeEnableEncryption => 0x2019,
            HciCommand::LeLongTermKeyRequestReply => 0x201A,
            HciCommand::LeLongTermKeyRequestNegativeReply => 0x201B,
            HciCommand::LeReadSupportedStates => 0x201C,
            HciCommand::LeSetDataLength => 0x2022,
            HciCommand::LeReadSuggestedDefaultDataLength => 0x2023,
            HciCommand::LeWriteSuggestedDefaultDataLength => 0x2024,
            HciCommand::LeAddDeviceToResolvingList => 0x2027,
            HciCommand::LeRemoveDeviceFromResolvingList => 0x2028,
            HciCommand::LeClearResolvingList => 0x2029,
            HciCommand::LeReadResolvingListSize => 0x202A,
            HciCommand::LeSetPrivacyMode => 0x202C,
            HciCommand::LeSetAddressResolutionEnable => 0x202D,
            HciCommand::LeSetResolvablePrivateAddressTimeout => 0x202E,
            HciCommand::LeReadMaxDataLength => 0x202F,
            HciCommand::LeReadPhy => 0x2030,
            HciCommand::LeSetDefaultPhy => 0x2031,
            HciCommand::LeSetPhy => 0x2032,
            // LE 5.0 Extended Advertising (OGF 0x08)
            HciCommand::LeSetAdvSetRandomAddress => 0x2035,
            HciCommand::LeSetExtAdvParams => 0x2036,
            HciCommand::LeSetExtAdvData => 0x2037,
            HciCommand::LeSetExtAdvEnable => 0x2039,
            HciCommand::LeReadMaxAdvDataLength => 0x203A,
            HciCommand::LeReadNumberOfSupportedAdvSets => 0x203B,
            HciCommand::LeRemoveAdvSet => 0x203C,
            HciCommand::LeClearAdvSets => 0x203D,
            // LE 5.0 Extended Scanning (OGF 0x08)
            HciCommand::LeSetExtScanParams => 0x2041,
            HciCommand::LeSetExtScanEnable => 0x2042,
            HciCommand::LeExtCreateConn => 0x2043,
            // LE 5.0 Periodic Advertising (OGF 0x08)
            HciCommand::LePeriodicAdvCreateSync => 0x2044,
            HciCommand::LePeriodicAdvCreateSyncCancel => 0x2045,
            HciCommand::LePeriodicAdvTerminateSync => 0x2046,
            HciCommand::LeAddDeviceToPeriodicAdvList => 0x2047,
            HciCommand::LeRemoveDeviceFromPeriodicAdvList => 0x2048,
            HciCommand::LeClearPeriodicAdvList => 0x2049,
            HciCommand::LeReadPeriodicAdvListSize => 0x204A,
            HciCommand::LeReadTransmitPower => 0x204B,
            // LE 5.2 Host Feature (OGF 0x08)
            HciCommand::LeSetHostFeature => 0x2059,
            // LE 5.2 Isochronous Channels - CIS (OGF 0x08)
            HciCommand::LeSetCigParams => 0x2062,
            HciCommand::LeSetCigParamsTest => 0x2063,
            HciCommand::LeCreateCis => 0x2064,
            HciCommand::LeRemoveCig => 0x2065,
            HciCommand::LeAcceptCisRequest => 0x2066,
            HciCommand::LeRejectCisRequest => 0x2067,
            // LE 5.2 Isochronous Channels - BIS (OGF 0x08)
            HciCommand::LeCreateBig => 0x2068,
            HciCommand::LeCreateBigTest => 0x2069,
            HciCommand::LeTerminateBig => 0x206A,
            HciCommand::LeBigCreateSync => 0x206B,
            HciCommand::LeBigTerminateSync => 0x206C,
            // LE 5.2 ISO Data Path & Test (OGF 0x08)
            HciCommand::LeSetupIsoDataPath => 0x206E,
            HciCommand::LeRemoveIsoDataPath => 0x206F,
            HciCommand::LeIsoTransmitTest => 0x2070,
            HciCommand::LeIsoReceiveTest => 0x2071,
            HciCommand::LeIsoReadTestCounters => 0x2072,
            HciCommand::LeIsoTestEnd => 0x2073,
            HciCommand::LeReadIsoTxSync => 0x2075,
            HciCommand::LeReadIsoLinkQuality => 0x2076,
        }
    }

    /// What the command's function takes and gives back.
    pub fn shape(self) -> (shape: CommandShape)
        ensures
            shape == self.form(),
    {
        match self {
            HciCommand::CbReset
            | HciCommand::LeClearFilterAcceptList
            | HciCommand::LeClearResolvingList
            | HciCommand::LeClearAdvSets
            | HciCommand::LeClearPeriodicAdvList => CommandShape::Plain,
            HciCommand::CbSetEventMask
            | HciCommand::CbSetControllerToHostFlowControl
            | HciCommand::CbHostBufferSize
            | HciCommand::CbHostNumberOfCompletedPackets
            | HciCommand::CbSetEventMaskPage2
            | HciCommand::LeSetEventMask
            | HciCommand::LeSetRandomAddress
            | HciCommand::LeSetAdvParams
            | HciCommand::LeSetAdvData
            | HciCommand::LeSetScanResponseData
            | HciCommand::LeSetAdvEnable
            | HciCommand::LeSetScanParams
            | HciCommand::LeSetScanEnable
            | HciCommand::LeAddDeviceToFilterAcceptList
            | HciCommand::LeRemoveDeviceFromFilterAcceptList
            | HciCommand::LeSetHostChannelClassification
            | HciCommand::LeWriteSuggestedDefaultDataLength
            | HciCommand::LeAddDeviceToResolvingList
            | HciCommand::LeRemoveDeviceFromResolvingList
            | HciCommand::LeSetPrivacyMode
            | HciCommand::LeSetAddressResolutionEnable
            | HciCommand::LeSetResolvablePrivateAddressTimeout
            | HciCommand::LeSetDefaultPhy
            | HciCommand::LeSetAdvSetRandomAddress
            | HciCommand::LeSetExtAdvData
            | HciCommand::LeSetExtAdvEnable
            | HciCommand::LeRemoveAdvSet
            | HciCommand::LeSetExtScanParams
            | HciCommand::LeSetExtScanEnable
            | HciCommand::LePeriodicAdvTerminateSync
            | HciCommand::LeAddDeviceToPeriodicAdvList
            | HciCommand::LeRemoveDeviceFromPeriodicAdvList
            | HciCommand::LeSetHostFeature
            | HciCommand::LeAcceptCisRequest => CommandShape::Params,
            HciCommand::IpReadLocalVersionInformation
            | HciCommand::IpReadLocalSupportedCommands
            | HciCommand::IpReadLocalSupportedFeatures
            | HciCommand::IpReadBdAddr
            | HciCommand::LeReadBufferSize
            | HciCommand::LeReadLocalSupportedFeatures
            | HciCommand::LeReadAdvPhysicalChannelTxPower
            | HciCommand::LeReadFilterAcceptListSize
            | HciCommand::LeRand
            | HciCommand::LeReadSupportedStates
            | HciCommand::LeReadSuggestedDefaultDataLength
            | HciCommand::LeReadResolvingListSize
            | HciCommand::LeReadMaxDataLength
            | HciCommand::LeReadMaxAdvDataLength
            | HciCommand::LeReadNumberOfSupportedAdvSets
            | HciCommand::LeReadPeriodicAdvListSize
            | HciCommand::LeReadTransmitPower => CommandShape::Return,
            HciCommand::LeReadChannelMap
            | HciCommand::LeEncrypt
            | HciCommand::LeLongTermKeyRequestReply
            | HciCommand::LeLongTermKeyRequestNegativeReply
            | HciCommand::LeSetDataLength
            | HciCommand::LeReadPhy
            | HciCommand::LeSetExtAdvParams
            | HciCommand::LeSetCigParams
            | HciCommand::LeSetCigParamsTest
            | HciCommand::LeRemoveCig
            | HciCommand::LeRejectCisRequest
            | HciCommand::LeBigTerminateSync
            | HciCommand::LeSetupIsoDataPath
            | HciCommand::LeRemoveIsoDataPath
            | HciCommand::LeIsoTransmitTest
            | HciCommand::LeIsoReceiveTest
            | HciCommand::LeIsoReadTestCounters
            | HciCommand::LeIsoTestEnd
            | HciCommand::LeReadIsoTxSync
            | HciCommand::LeReadIsoLinkQuality => CommandShape::ParamsReturn,
            HciCommand::LeCreateConnCancel
            | HciCommand::LePeriodicAdvCreateSyncCancel => CommandShape::AsyncPlain,
            HciCommand::LcDisconnect
            | HciCommand::LcReadRemoteVersionInformation
            | HciCommand::LeCreateConn
            | HciCommand::LeConnUpdate
            | HciCommand::LeReadRemoteFeatures
            | HciCommand::LeEnableEncryption
            | HciCommand::LeSetPhy
            | HciCommand::LeExtCreateConn
            | HciCommand::LePeriodicAdvCreateSync
            | HciCommand::LeCreateCis
            | HciCommand::LeCreateBig
            | HciCommand::LeCreateBigTest
            | HciCommand::LeTerminateBig
            | HciCommand::LeBigCreateSync => CommandShape::AsyncParams,
        }
    }
}

/// The opcode at the head of a command packet of at least two bytes.
pub open spec fn opcode_in(payload: Seq<u8>) -> int {
    hci::le16(payload[0], payload[1])
}

/// The command packet names `command`.
pub open spec fn names(payload: Seq<u8>, command: HciCommand) -> bool {
    payload.len() >= 2 && command.code() == opcode_in(payload)
}

/// The parameters of a command packet: what follows opcode and parameter length.
pub open spec fn params_in(payload: Seq<u8>) -> Seq<u8> {
    if payload.len() > 3 {
        payload.skip(3)
    } else {
        Seq::empty()
    }
}

/// The event that answers a command, its indicator first. A command whose
/// result comes later is answered by its status alone, and so is one without
/// return data.
pub open spec fn reply(command: HciCommand, status: u8, return_data: Seq<u8>) -> Seq<u8> {
    if command.form().is_async() {
        hci::cs_event(command.code(), status)
    } else if command.form().gives_data() {
        hci::cc_event(command.code(), status, return_data)
    } else {
        hci::cc_event(command.code(), status, Seq::empty())
    }
}

/// What becomes of a command packet.
#[derive(Clone, Copy, Debug)]
pub enum Dispatch<'a> {
    /// It names no command of the controller, and is not answered.
    Unhandled,
    /// It has too few parameter bytes. The refusal was sent to the application
    /// core, or dropped if there was no room for it.
    Refused {
        /// The event to trigger.
        trigger: Option<IpcEvent>,
    },
    /// The controller is to run the command, and `complete_hci_cmd` to send the
    /// answer.
    Call {
        /// The command.
        command: HciCommand,
        /// Its parameters, at least as many bytes as the command takes.
        params: &'a [u8],
    },
}

/// The command that a command packet names, if the controller has a function for
/// it.
pub fn command_of(payload: &[u8]) -> (command: Option<HciCommand>)
    ensures
        forall|c: HciCommand| #[trigger] names(payload@, c) <==> command == Some(c),
{
    if payload.len() < 2 {
        return None;
    }
    let opcode: u16 = payload[0] as u16 + 256 * payload[1] as u16;
    let command = HciCommand::from_opcode(opcode);
    assert forall|c: HciCommand| #[trigger] names(payload@, c) <==> command == Some(c) by {
        assert(c.code() == opcode <==> command == Some(c));
    }
    command
}

/// Decides what becomes of a command packet: opcode (2 bytes), parameter length
/// (1 byte) and parameters.
///
/// `param_size` is the size of the parameters that the command named by the
/// packet takes; it has no effect on a command without parameters. A packet with
/// fewer parameter bytes than that is refused.
pub fn dispatch_hci_cmd<'a>(
    headers: &mut IpcHeaders,
    n2a: &mut [u8; RING_BUF_SIZE],
    payload: &'a [u8],
    param_size: usize,
) -> (dispatch: Dispatch<'a>)
    ensures
        (forall|c: HciCommand| !#[trigger] names(payload@, c)) ==> {
            &&& dispatch is Unhandled
            &&& *final(headers) == *old(headers)
            &&& final(n2a)@ == old(n2a)@
        },
        forall|c: HciCommand| #[trigger]
            names(payload@, c) ==> {
                if c.form().takes_params() && params_in(payload@).len() < param_size {
                    &&& dispatch matches Dispatch::Refused { trigger }
                    &&& (*final(headers), final(n2a)@, trigger) == ipc::app_notified(
                        *old(headers),
                        old(n2a)@,
                        reply(c, STATUS_INVALID_PARAMS, Seq::empty()),
                    )
                } else {
                    &&& dispatch matches Dispatch::Call { command, params }
                    &&& command == c
                    &&& params@ == params_in(payload@)
                    &&& *final(headers) == *old(headers)
                    &&& final(n2a)@ == old(n2a)@
                }
            },
{
    let command = match command_of(payload) {
        Some(command) => command,
        None => {
            return Dispatch::Unhandled;
        },
    };
    assert(names(payload@, command));
    let len: usize = payload.len();
    let params = if len > 3 {
        &payload[3..len]
    } else {
        &payload[len..len]
    };
    assert(params@ =~= params_in(payload@));
    let takes_params = match command.shape() {
        CommandShape::Params | CommandShape::ParamsReturn | CommandShape::AsyncParams => true,
        CommandShape::Plain | CommandShape::Return | CommandShape::AsyncPlain => false,
    };
    if takes_params && params.len() < param_size {
        let trigger = complete_hci_cmd(
            headers,
            n2a,
            command,
            STATUS_INVALID_PARAMS,
            &payload[len..len],
        );
        return Dispatch::Refused { trigger };
    }
    Dispatch::Call { command, params }
}

/// Sends the answer to a command that the controller has run, with the status
/// and the return data that it gave. Data from a command that gives none back is
/// ignored.
pub fn complete_hci_cmd(
    headers: &mut IpcHeaders,
    n2a: &mut [u8; RING_BUF_SIZE],
    command: HciCommand,
    status: u8,
    return_data: &[u8],
) -> (trigger: Option<IpcEvent>)
    ensures
        (*final(headers), final(n2a)@, trigger) == ipc::app_notified(
            *old(headers),
            old(n2a)@,
            reply(command, status, return_data@),
        ),
{
    let opcode: u16 = command.opcode();
    match command.shape() {
        CommandShape::AsyncPlain | CommandShape::AsyncParams => {
            send_cs_event(headers, n2a, opcode, status)
        },
        CommandShape::Return | CommandShape::ParamsReturn => {
            send_cc_event(headers, n2a, opcode, status, return_data)
        },
        CommandShape::Plain | CommandShape::Params => {
            let nothing = &return_data[0..0];
            assert(nothing@ =~= Seq::<u8>::empty());
            send_cc_event(headers, n2a, opcode, status, nothing)
        },
    }
}

/// No two commands share an opcode.
pub proof fn law_opcodes_are_distinct(command1: HciCommand, command2: HciCommand)
    requires
        command1.code() == command2.code(),
    ensures
        command1 == command2,
{
}

/// Whatever the controller says, the host gets an answer to the command it gave:
/// an event that names the command's opcode and carries the status. It is a
/// Command Status event if the result comes later and a Command Complete event
/// otherwise.
pub proof fn law_answer_fits_the_command(command: HciCommand, status: u8, return_data: Seq<u8>)
    ensures
        ({
            let event = reply(command, status, return_data);
            &&& event[0] == hci::HCI_EVENT
            &&& hci::packet_len(hci::HCI_EVENT, event.skip(1)) == event.len() - 1
            &&& if command.form().is_async() {
                &&& event[1] == hci::EVENT_CMD_STATUS
                &&& event[3] == status
                &&& hci::le16(event[5], event[6]) == command.code()
            } else {
                &&& event[1] == hci::EVENT_CMD_COMPLETE
                &&& event[6] == status
                &&& hci::le16(event[4], event[5]) == command.code()
            }
        }),
{
    let data = if command.form().gives_data() {
        return_data
    } else {
        Seq::empty()
    };
    hci::law_reply_tells_its_length(command.code(), status, data);
    hci::law_reply_names_its_command(command.code(), status, data);
}

/// The opcode is the first two bytes of a command packet, the low one first, and
/// each opcode stands for one command.
pub proof fn law_opcode_tells_the_command(payload: Seq<u8>)
    requires
        payload.len() >= 2,
    ensures
        names(payload, HciCommand::CbSetEventMask) <==> payload[0] == 0x01 && payload[1] == 0x0C,
        names(payload, HciCommand::CbReset) <==> payload[0] == 0x03 && payload[1] == 0x0C,
        names(payload, HciCommand::CbSetControllerToHostFlowControl) <==> payload[0] == 0x31
            && payload[1] == 0x0C,
        names(payload, HciCommand::CbHostBufferSize) <==> payload[0] == 0x33 && payload[1] == 0x0C,
        names(payload, HciCommand::CbHostNumberOfCompletedPackets) <==> payload[0] == 0x35
            && payload[1] == 0x0C,
        names(payload, HciCommand::CbSetEventMaskPage2) <==> payload[0] == 0x63
            && payload[1] == 0x0C,
        names(payload, HciCommand::LcDisconnect) <==> payload[0] == 0x06 && payload[1] == 0x04,
        names(payload, HciCommand::LcReadRemoteVersionInformation) <==> payload[0] == 0x1D
            && payload[1] == 0x04,
        names(payload, HciCommand::IpReadLocalVersionInformation) <==> payload[0] == 0x01
            && payload[1] == 0x10,
        names(payload, HciCommand::IpReadLocalSupportedCommands) <==> payload[0] == 0x02
            && payload[1] == 0x10,
        names(payload, HciCommand::IpReadLocalSupportedFeatures) <==> payload[0] == 0x03
            && payload[1] == 0x10,
        names(payload, HciCommand::IpReadBdAddr) <==> payload[0] == 0x09 && payload[1] == 0x10,
        names(payload, HciCommand::LeSetEventMask) <==> payload[0] == 0x01 && payload[1] == 0x20,
        names(payload, HciCommand::LeReadBufferSize) <==> payload[0] == 0x02 && payload[1] == 0x20,
        names(payload, HciCommand::LeReadLocalSupportedFeatures) <==> payload[0] == 0x03
            && payload[1] == 0x20,
        names(payload, HciCommand::LeSetRandomAddress) <==> payload[0] == 0x05
            && payload[1] == 0x20,
        names(payload, HciCommand::LeSetAdvParams) <==> payload[0] == 0x06 && payload[1] == 0x20,
        names(payload, HciCommand::LeReadAdvPhysicalChannelTxPower) <==> payload[0] == 0x07
            && payload[1] == 0x20,
        names(payload, HciCommand::LeSetAdvData) <==> payload[0] == 0x08 && payload[1] == 0x20,
        names(payload, HciCommand::LeSetScanResponseData) <==> payload[0] == 0x09
            && payload[1] == 0x20,
        names(payload, HciCommand::LeSetAdvEnable) <==> payload[0] == 0x0A && payload[1] == 0x20,
        names(payload, HciCommand::LeSetScanParams) <==> payload[0] == 0x0B && payload[1] == 0x20,
        names(payload, HciCommand::LeSetScanEnable) <==> payload[0] == 0x0C && payload[1] == 0x20,
        names(payload, HciCommand::LeCreateConn) <==> payload[0] == 0x0D && payload[1] == 0x20,
        names(payload, HciCommand::LeCreateConnCancel) <==> payload[0] == 0x0E
            && payload[1] == 0x20,
        names(payload, HciCommand::LeReadFilterAcceptListSize) <==> payload[0] == 0x0F
            && payload[1] == 0x20,
        names(payload, HciCommand::LeClearFilterAcceptList) <==> payload[0] == 0x10
            && payload[1] == 0x20,
        names(payload, HciCommand::LeAddDeviceToFilterAcceptList) <==> payload[0] == 0x11
            && payload[1] == 0x20,
        names(payload, HciCommand::LeRemoveDeviceFromFilterAcceptList) <==> payload[0] == 0x12
            && payload[1] == 0x20,
        names(payload, HciCommand::LeConnUpdate) <==> payload[0] == 0x13 && payload[1] == 0x20,
        names(payload, HciCommand::LeSetHostChannelClassification) <==> payload[0] == 0x14
            && payload[1] == 0x20,
        names(payload, HciCommand::LeReadChannelMap) <==> payload[0] == 0x15 && payload[1] == 0x20,
        names(payload, HciCommand::LeReadRemoteFeatures) <==> payload[0] == 0x16
            && payload[1] == 0x20,
        names(payload, HciCommand::LeEncrypt) <==> payload[0] == 0x17 && payload[1] == 0x20,
        names(payload, HciCommand::LeRand) <==> payload[0] == 0x18 && payload[1] == 0x20,
        names(payload, HciCommand::LeEnableEncryption) <==> payload[0] == 0x19
            && payload[1] == 0x20,
        names(payload, HciCommand::LeLongTermKeyRequestReply) <==> payload[0] == 0x1A
            && payload[1] == 0x20,
        names(payload, HciCommand::LeLongTermKeyRequestNegativeReply) <==> payload[0] == 0x1B
            && payload[1] == 0x20,
        names(payload, HciCommand::LeReadSupportedStates) <==> payload[0] == 0x1C
            && payload[1] == 0x20,
        names(payload, HciCommand::LeSetDataLength) <==> payload[0] == 0x22 && payload[1] == 0x20,
        names(payload, HciCommand::LeReadSuggestedDefaultDataLength) <==> payload[0] == 0x23
            && payload[1] == 0x20,
        names(payload, HciCommand::LeWriteSuggestedDefaultDataLength) <==> payload[0] == 0x24
            && payload[1] == 0x20,
        names(payload, HciCommand::LeAddDeviceToResolvingList) <==> payload[0] == 0x27
            && payload[1] == 0x20,
        names(payload, HciCommand::LeRemoveDeviceFromResolvingList) <==> payload[0] == 0x28
            && payload[1] == 0x20,
        names(payload, HciCommand::LeClearResolvingList) <==> payload[0] == 0x29
            && payload[1] == 0x20,
        names(payload, HciCommand::LeReadResolvingListSize) <==> payload[0] == 0x2A
            && payload[1] == 0x20,
        names(payload, HciCommand::LeSetPrivacyMode) <==> payload[0] == 0x2C && payload[1] == 0x20,
        names(payload, HciCommand::LeSetAddressResolutionEnable) <==> payload[0] == 0x2D
            && payload[1] == 0x20,
        names(payload, HciCommand::LeSetResolvablePrivateAddressTimeout) <==> payload[0] == 0x2E
            && payload[1] == 0x20,
        names(payload, HciCommand::LeReadMaxDataLength) <==> payload[0] == 0x2F
            && payload[1] == 0x20,
        names(payload, HciCommand::LeReadPhy) <==> payload[0] == 0x30 && payload[1] == 0x20,
        names(payload, HciCommand::LeSetDefaultPhy) <==> payload[0] == 0x31 && payload[1] == 0x20,
        names(payload, HciCommand::LeSetPhy) <==> payload[0] == 0x32 && payload[1] == 0x20,
        names(payload, HciCommand::LeSetAdvSetRandomAddress) <==> payload[0] == 0x35
            && payload[1] == 0x20,
        names(payload, HciCommand::LeSetExtAdvParams) <==> payload[0] == 0x36 && payload[1] == 0x20,
        names(payload, HciCommand::LeSetExtAdvData) <==> payload[0] == 0x37 && payload[1] == 0x20,
        names(payload, HciCommand::LeSetExtAdvEnable) <==> payload[0] == 0x39 && payload[1] == 0x20,
        names(payload, HciCommand::LeReadMaxAdvDataLength) <==> payload[0] == 0x3A
            && payload[1] == 0x20,
        names(payload, HciCommand::LeReadNumberOfSupportedAdvSets) <==> payload[0] == 0x3B
            && payload[1] == 0x20,
        names(payload, HciCommand::LeRemoveAdvSet) <==> payload[0] == 0x3C && payload[1] == 0x20,
        names(payload, HciCommand::LeClearAdvSets) <==> payload[0] == 0x3D && payload[1] == 0x20,
        names(payload, HciCommand::LeSetExtScanParams) <==> payload[0] == 0x41
            && payload[1] == 0x20,
        names(payload, HciCommand::LeSetExtScanEnable) <==> payload[0] == 0x42
            && payload[1] == 0x20,
        names(payload, HciCommand::LeExtCreateConn) <==> payload[0] == 0x43 && payload[1] == 0x20,
        names(payload, HciCommand::LePeriodicAdvCreateSync) <==> payload[0] == 0x44
            && payload[1] == 0x20,
        names(payload, HciCommand::LePeriodicAdvCreateSyncCancel) <==> payload[0] == 0x45
            && payload[1] == 0x20,
        names(payload, HciCommand::LePeriodicAdvTerminateSync) <==> payload[0] == 0x46
            && payload[1] == 0x20,
        names(payload, HciCommand::LeAddDeviceToPeriodicAdvList) <==> payload[0] == 0x47
            && payload[1] == 0x20,
        names(payload, HciCommand::LeRemoveDeviceFromPeriodicAdvList) <==> payload[0] == 0x48
            && payload[1] == 0x20,
        names(payload, HciCommand::LeClearPeriodicAdvList) <==> payload[0] == 0x49
            && payload[1] == 0x20,
        names(payload, HciCommand::LeReadPeriodicAdvListSize) <==> payload[0] == 0x4A
            && payload[1] == 0x20,
        names(payload, HciCommand::LeReadTransmitPower) <==> payload[0] == 0x4B
            && payload[1] == 0x20,
        names(payload, HciCommand::LeSetHostFeature) <==> payload[0] == 0x59 && payload[1] == 0x20,
        names(payload, HciCommand::LeSetCigParams) <==> payload[0] == 0x62 && payload[1] == 0x20,
        names(payload, HciCommand::LeSetCigParamsTest) <==> payload[0] == 0x63
            && payload[1] == 0x20,
        names(payload, HciCommand::LeCreateCis) <==> payload[0] == 0x64 && payload[1] == 0x20,
        names(payload, HciCommand::LeRemoveCig) <==> payload[0] == 0x65 && payload[1] == 0x20,
        names(payload, HciCommand::LeAcceptCisRequest) <==> payload[0] == 0x66
            && payload[1] == 0x20,
        names(payload, HciCommand::LeRejectCisRequest) <==> payload[0] == 0x67
            && payload[1] == 0x20,
        names(payload, HciCommand::LeCreateBig) <==> payload[0] == 0x68 && payload[1] == 0x20,
        names(payload, HciCommand::LeCreateBigTest) <==> payload[0] == 0x69 && payload[1] == 0x20,
        names(payload, HciCommand::LeTerminateBig) <==> payload[0] == 0x6A && payload[1] == 0x20,
        names(payload, HciCommand::LeBigCreateSync) <==> payload[0] == 0x6B && payload[1] == 0x20,
        names(payload, HciCommand::LeBigTerminateSync) <==> payload[0] == 0x6C
            && payload[1] == 0x20,
        names(payload, HciCommand::LeSetupIsoDataPath) <==> payload[0] == 0x6E
            && payload[1] == 0x20,
        names(payload, HciCommand::LeRemoveIsoDataPath) <==> payload[0] == 0x6F
            && payload[1] == 0x20,
        names(payload, HciCommand::LeIsoTransmitTest) <==> payload[0] == 0x70 && payload[1] == 0x20,
        names(payload, HciCommand::LeIsoReceiveTest) <==> payload[0] == 0x71 && payload[1] == 0x20,
        names(payload, HciCommand::LeIsoReadTestCounters) <==> payload[0] == 0x72
            && payload[1] == 0x20,
        names(payload, HciCommand::LeIsoTestEnd) <==> payload[0] == 0x73 && payload[1] == 0x20,
        names(payload, HciCommand::LeReadIsoTxSync) <==> payload[0] == 0x75 && payload[1] == 0x20,
        names(payload, HciCommand::LeReadIsoLinkQuality) <==> payload[0] == 0x76
            && payload[1] == 0x20,
{
}

/// A packet names a command exactly if its first two bytes make up the command's
/// opcode. A packet without them names none.
pub proof fn law_packet_carries_the_opcode(payload: Seq<u8>, command: HciCommand)
    ensures
        payload.len() < 2 ==> !names(payload, command),
        payload.len() >= 2 ==> (names(payload, command) <==> command.code() == payload[0] + 256
            * payload[1]),
{
}

/// The parameters are the bytes of a packet from the fourth on, as they stand.
pub proof fn law_parameters_follow_the_header(payload: Seq<u8>, i: int)
    ensures
        payload.len() <= 3 ==> params_in(payload).len() == 0,
        payload.len() > 3 ==> params_in(payload).len() == payload.len() - 3,
        3 <= i < payload.len() ==> params_in(payload)[i - 3] == payload[i],
{
}

/// What the controller's function for an opcode takes and gives back.
pub proof fn law_opcode_tells_the_shape(payload: Seq<u8>, command: HciCommand)
    requires
        names(payload, command),
    ensures
        command.form() is Plain <==> {
            let opcode = payload[0] + 256 * payload[1];
            ||| opcode == 0x0C03
            ||| opcode == 0x2010
            ||| opcode == 0x2029
            ||| opcode == 0x203D
            ||| opcode == 0x2049
        },
        command.form() is Params <==> {
            let opcode = payload[0] + 256 * payload[1];
            ||| opcode == 0x0C01
            ||| opcode == 0x0C31
            ||| opcode == 0x0C33
            ||| opcode == 0x0C35
            ||| opcode == 0x0C63
            ||| opcode == 0x2001
            ||| opcode == 0x2005
            ||| opcode == 0x2006
            ||| opcode == 0x2008
            ||| opcode == 0x2009
            ||| opcode == 0x200A
            ||| opcode == 0x200B
            ||| opcode == 0x200C
            ||| opcode == 0x2011
            ||| opcode == 0x2012
            ||| opcode == 0x2014
            ||| opcode == 0x2024
            ||| opcode == 0x2027
            ||| opcode == 0x2028
            ||| opcode == 0x202C
            ||| opcode == 0x202D
            ||| opcode == 0x202E
            ||| opcode == 0x2031
            ||| opcode == 0x2035
            ||| opcode == 0x2037
            ||| opcode == 0x2039
            ||| opcode == 0x203C
            ||| opcode == 0x2041
            ||| opcode == 0x2042
            ||| opcode == 0x2046
            ||| opcode == 0x2047
            ||| opcode == 0x2048
            ||| opcode == 0x2059
            ||| opcode == 0x2066
        },
        command.form() is Return <==> {
            let opcode = payload[0] + 256 * payload[1];
            ||| opcode == 0x1001
            ||| opcode == 0x1002
            ||| opcode == 0x1003
            ||| opcode == 0x1009
            ||| opcode == 0x2002
            ||| opcode == 0x2003
            ||| opcode == 0x2007
            ||| opcode == 0x200F
            ||| opcode == 0x2018
            ||| opcode == 0x201C
            ||| opcode == 0x2023
            ||| opcode == 0x202A
            ||| opcode == 0x202F
            ||| opcode == 0x203A
            ||| opcode == 0x203B
            ||| opcode == 0x204A
            ||| opcode == 0x204B
        },
        command.form() is ParamsReturn <==> {
            let opcode = payload[0] + 256 * payload[1];
            ||| opcode == 0x2015
            ||| opcode == 0x2017
            ||| opcode == 0x201A
            ||| opcode == 0x201B
            ||| opcode == 0x2022
            ||| opcode == 0x2030
            ||| opcode == 0x2036
            ||| opcode == 0x2062
            ||| opcode == 0x2063
            ||| opcode == 0x2065
            ||| opcode == 0x2067
            ||| opcode == 0x206C
            ||| opcode == 0x206E
            ||| opcode == 0x206F
            ||| opcode == 0x2070
            ||| opcode == 0x2071
            ||| opcode == 0x2072
            ||| opcode == 0x2073
            ||| opcode == 0x2075
            ||| opcode == 0x2076
        },
        command.form() is AsyncPlain <==> {
            let opcode = payload[0] + 256 * payload[1];
            ||| opcode == 0x200E
            ||| opcode == 0x2045
        },
        command.form() is AsyncParams <==> {
            let opcode = payload[0] + 256 * payload[1];
            ||| opcode == 0x0406
            ||| opcode == 0x041D
            ||| opcode == 0x200D
            ||| opcode == 0x2013
            ||| opcode == 0x2016
            ||| opcode == 0x2019
            ||| opcode == 0x2032
            ||| opcode == 0x2043
            ||| opcode == 0x2044
            ||| opcode == 0x2064
            ||| opcode == 0x2068
            ||| opcode == 0x2069
            ||| opcode == 0x206A
            ||| opcode == 0x206B
        },
{
}

/// The opcodes whose parameters may be left out: a packet with any other opcode
/// is refused if it has too few of them.
pub proof fn law_opcode_tells_whether_parameters_are_needed(
    payload: Seq<u8>,
    command: HciCommand,
)
    requires
        names(payload, command),
    ensures
        !command.form().takes_params() <==> {
            let opcode = payload[0] + 256 * payload[1];
            ||| opcode == 0x0C03
            ||| opcode == 0x1001
            ||| opcode == 0x1002
            ||| opcode == 0x1003
            ||| opcode == 0x1009
            ||| opcode == 0x2002
            ||| opcode == 0x2003
            ||| opcode == 0x2007
            ||| opcode == 0x200E
            ||| opcode == 0x200F
            ||| opcode == 0x2010
            ||| opcode == 0x2018
            ||| opcode == 0x201C
            ||| opcode == 0x2023
            ||| opcode == 0x2029
            ||| opcode == 0x202A
            ||| opcode == 0x202F
            ||| opcode == 0x203A
            ||| opcode == 0x203B
            ||| opcode == 0x203D
            ||| opcode == 0x2045
            ||| opcode == 0x2049
            ||| opcode == 0x204A
            ||| opcode == 0x204B
        },
{
}

/// The answer to a reading command carries what the controller gave back, byte
/// for byte, up to 64 bytes of it, behind the status and the opcode of the packet.
pub proof fn law_reading_command_is_answered_with_its_data(
    payload: Seq<u8>,
    command: HciCommand,
    status: u8,
    return_data: Seq<u8>,
)
    requires
        names(payload, command),
        ({
            let opcode = payload[0] + 256 * payload[1];
            ||| opcode == 0x1001
            ||| opcode == 0x1002
            ||| opcode == 0x1003
            ||| opcode == 0x1009
            ||| opcode == 0x2002
            ||| opcode == 0x2003
            ||| opcode == 0x2007
            ||| opcode == 0x200F
            ||| opcode == 0x2015
            ||| opcode == 0x2017
            ||| opcode == 0x2018
            ||| opcode == 0x201A
            ||| opcode == 0x201B
            ||| opcode == 0x201C
            ||| opcode == 0x2022
            ||| opcode == 0x2023
            ||| opcode == 0x202A
            ||| opcode == 0x202F
            ||| opcode == 0x2030
            ||| opcode == 0x2036
            ||| opcode == 0x203A
            ||| opcode == 0x203B
            ||| opcode == 0x204A
            ||| opcode == 0x204B
            ||| opcode == 0x2062
            ||| opcode == 0x2063
            ||| opcode == 0x2065
            ||| opcode == 0x2067
            ||| opcode == 0x206C
            ||| opcode == 0x206E
            ||| opcode == 0x206F
            ||| opcode == 0x2070
            ||| opcode == 0x2071
            ||| opcode == 0x2072
            ||| opcode == 0x2073
            ||| opcode == 0x2075
            ||| opcode == 0x2076
        }),
    ensures
        ({
            let event = reply(command, status, return_data);
            let n = if return_data.len() <= 64 {
                return_data.len() as int
            } else {
                64
            };
            &&& event.len() == 7 + n
            &&& event.take(7) == seq![
                0x04u8,
                0x0E,
                (4 + n) as u8,
                0x01,
                payload[0],
                payload[1],
                status,
            ]
            &&& event.skip(7) == return_data.take(n)
        }),
{
    let event = reply(command, status, return_data);
    assert(event.take(7) =~= seq![
        0x04u8,
        0x0E,
        (event.len() - 3) as u8,
        0x01,
        payload[0],
        payload[1],
        status,
    ]);
    assert(event.skip(7) =~= return_data.take(event.len() - 7));
}

/// The answer to a command that gives nothing back is its status, and no data
/// whatever else came with it.
pub proof fn law_other_command_is_answered_with_its_status(
    payload: Seq<u8>,
    command: HciCommand,
    status: u8,
    return_data: Seq<u8>,
)
    requires
        names(payload, command),
        ({
            let opcode = payload[0] + 256 * payload[1];
            ||| opcode == 0x0C01
            ||| opcode == 0x0C03
            ||| opcode == 0x0C31
            ||| opcode == 0x0C33
            ||| opcode == 0x0C35
            ||| opcode == 0x0C63
            ||| opcode == 0x2001
            ||| opcode == 0x2005
            ||| opcode == 0x2006
            ||| opcode == 0x2008
            ||| opcode == 0x2009
            ||| opcode == 0x200A
            ||| opcode == 0x200B
            ||| opcode == 0x200C
            ||| opcode == 0x2010
            ||| opcode == 0x2011
            ||| opcode == 0x2012
            ||| opcode == 0x2014
            ||| opcode == 0x2024
            ||| opcode == 0x2027
            ||| opcode == 0x2028
            ||| opcode == 0x2029
            ||| opcode == 0x202C
            ||| opcode == 0x202D
            ||| opcode == 0x202E
            ||| opcode == 0x2031
            ||| opcode == 0x2035
            ||| opcode == 0x2037
            ||| opcode == 0x2039
            ||| opcode == 0x203C
            ||| opcode == 0x203D
            ||| opcode == 0x2041
            ||| opcode == 0x2042
            ||| opcode == 0x2046
            ||| opcode == 0x2047
            ||| opcode == 0x2048
            ||| opcode == 0x2049
            ||| opcode == 0x2059
            ||| opcode == 0x2066
        }),
    ensures
        reply(command, status, return_data) == seq![
            0x04u8,
            0x0E,
            0x04,
            0x01,
            payload[0],
            payload[1],
            status,
        ],
{
}

/// A command whose result comes later is answered at once, with a Command Status
/// event.
pub proof fn law_lasting_command_is_answered_at_once(
    payload: Seq<u8>,
    command: HciCommand,
    status: u8,
    return_data: Seq<u8>,
)
    requires
        names(payload, command),
        ({
            let opcode = payload[0] + 256 * payload[1];
            ||| opcode == 0x0406
            ||| opcode == 0x041D
            ||| opcode == 0x200D
            ||| opcode == 0x200E
            ||| opcode == 0x2013
            ||| opcode == 0x2016
            ||| opcode == 0x2019
            ||| opcode == 0x2032
            ||| opcode == 0x2043
            ||| opcode == 0x2044
            ||| opcode == 0x2045
            ||| opcode == 0x2064
            ||| opcode == 0x2068
            ||| opcode == 0x2069
            ||| opcode == 0x206A
            ||| opcode == 0x206B
        }),
    ensures
        reply(command, status, return_data) == seq![
            0x04u8,
            0x0F,
            0x04,
            status,
            0x01,
            payload[0],
            payload[1],
        ],
{
}

/// A refusal says that the parameters are not valid, and carries no data: status
/// 0x12, where the kind of event has its status.
pub proof fn law_refusal_says_invalid_parameters(payload: Seq<u8>, command: HciCommand)
    requires
        names(payload, command),
    ensures
        ({
            let event = reply(command, STATUS_INVALID_PARAMS, Seq::empty());
            ||| event == seq![0x04u8, 0x0E, 0x04, 0x01, payload[0], payload[1], 0x12]
            ||| event == seq![0x04u8, 0x0F, 0x04, 0x12, 0x01, payload[0], payload[1]]
        }),
{
    let event = reply(command, STATUS_INVALID_PARAMS, Seq::empty());
    if command.form().is_async() {
        assert(event =~= seq![0x04u8, 0x0F, 0x04, 0x12, 0x01, payload[0], payload[1]]);
    } else {
        assert(event =~= seq![0x04u8, 0x0E, 0x04, 0x01, payload[0], payload[1], 0x12]);
    }
}

} // verus!
