//! VM-instruction errors: the number the processor leaves in the VMCS
//! after a failed VMX instruction, and its meaning.
use vstd::prelude::*;

verus! {

/// A VM-instruction error number (Intel SDM Vol. 3C, 31.4).
#[derive(Debug, Clone, Copy, PartialEq, Eq, Structural)]
pub enum InstructionError {
    NotAvailable,
    VmcallInVmxroot,
    VmclearInvalidPhys,
    VmclearVmxonptr,
    VmlaunchNonclearVmcs,
    VmresumeNonlaunchedVmcs,
    VmresumeAfterVmxoff,
    VmentryInvalidCtrl,
    VmentryInvalidHostState,
    VmptrldInvalidPhys,
    VmptrldVmxonp,
    VmptrldIncorrectRev,
    VmrwUnsupportedComponent,
    VmwRoComponent,
    VmxonInVmxroot,
    VmentryInvalidExecCtrl,
    VmentryNonlaunchedExecCtrl,
    VmentryExecVmcsptr,
    VmcallNonclearVmcs,
    VmcallInvalidExitctl,
    VmcallIncorrectMsgrev,
    VmxoffDualmonitor,
    VmcallInvalidSmm,
    VmentryInvalidExecctrl,
    VmentryEventsBlocked,
    InvalidInvept,
}

/// The error with number `v`, if there is one.
pub open spec fn instruction_error_of(v: u32) -> Option<InstructionError> {
    if v == 0 {
        Some(InstructionError::NotAvailable)
    } else if v == 1 {
        Some(InstructionError::VmcallInVmxroot)
    } else if v == 2 {
        Some(InstructionError::VmclearInvalidPhys)
    } else if v == 3 {
        Some(InstructionError::VmclearVmxonptr)
    } else if v == 4 {
        Some(InstructionError::VmlaunchNonclearVmcs)
    } else if v == 5 {
        Some(InstructionError::VmresumeNonlaunchedVmcs)
    } else if v == 6 {
        Some(InstructionError::VmresumeAfterVmxoff)
    } else if v == 7 {
        Some(InstructionError::VmentryInvalidCtrl)
    } else if v == 8 {
        Some(InstructionError::VmentryInvalidHostState)
    } else if v == 9 {
        Some(InstructionError::VmptrldInvalidPhys)
    } else if v == 10 {
        Some(InstructionError::VmptrldVmxonp)
    } else if v == 11 {
        Some(InstructionError::VmptrldIncorrectRev)
    } else if v == 12 {
        Some(InstructionError::VmrwUnsupportedComponent)
    } else if v == 13 {
        Some(InstructionError::VmwRoComponent)
    } else if v == 15 {
        Some(InstructionError::VmxonInVmxroot)
    } else if v == 16 {
        Some(InstructionError::VmentryInvalidExecCtrl)
    } else if v == 17 {
        Some(InstructionError::VmentryNonlaunchedExecCtrl)
    } else if v == 18 {
        Some(InstructionError::VmentryExecVmcsptr)
    } else if v == 19 {
        Some(InstructionError::VmcallNonclearVmcs)
    } else if v == 20 {
        Some(InstructionError::VmcallInvalidExitctl)
    } else if v == 22 {
        Some(InstructionError::VmcallIncorrectMsgrev)
    } else if v == 23 {
        Some(InstructionError::VmxoffDualmonitor)
    } else if v == 24 {
        Some(InstructionError::VmcallInvalidSmm)
    } else if v == 25 {
        Some(InstructionError::VmentryInvalidExecctrl)
    } else if v == 26 {
        Some(InstructionError::VmentryEventsBlocked)
    } else if v == 28 {
        Some(InstructionError::InvalidInvept)
    } else {
        None
    }
}

/// The number of an error.
pub open spec fn instruction_error_number(e: InstructionError) -> u32 {
    match e {
        InstructionError::NotAvailable => 0,
        InstructionError::VmcallInVmxroot => 1,
        InstructionError::VmclearInvalidPhys => 2,
        InstructionError::VmclearVmxonptr => 3,
        InstructionError::VmlaunchNonclearVmcs => 4,
        InstructionError::VmresumeNonlaunchedVmcs => 5,
        InstructionError::VmresumeAfterVmxoff => 6,
        InstructionError::VmentryInvalidCtrl => 7,
        InstructionError::VmentryInvalidHostState => 8,
        InstructionError::VmptrldInvalidPhys => 9,
        InstructionError::VmptrldVmxonp => 10,
        InstructionError::VmptrldIncorrectRev => 11,
        InstructionError::VmrwUnsupportedComponent => 12,
        InstructionError::VmwRoComponent => 13,
        InstructionError::VmxonInVmxroot => 15,
        InstructionError::VmentryInvalidExecCtrl => 16,
        InstructionError::VmentryNonlaunchedExecCtrl => 17,
        InstructionError::VmentryExecVmcsptr => 18,
        InstructionError::VmcallNonclearVmcs => 19,
        InstructionError::VmcallInvalidExitctl => 20,
        InstructionError::VmcallIncorrectMsgrev => 22,
        InstructionError::VmxoffDualmonitor => 23,
        InstructionError::VmcallInvalidSmm => 24,
        InstructionError::VmentryInvalidExecctrl => 25,
        InstructionError::VmentryEventsBlocked => 26,
        InstructionError::InvalidInvept => 28,
    }
}

/// What an error means.
pub open spec fn instruction_error_text(e: InstructionError) -> &'static str {
    match e {
        InstructionError::NotAvailable => "Instruction not available",
        InstructionError::VmcallInVmxroot => "VMCALL in VMX root operation",
        InstructionError::VmclearInvalidPhys => "Invalid physical address for VMCLEAR",
        InstructionError::VmclearVmxonptr => "VMCLEAR with VMXON pointer",
        InstructionError::VmlaunchNonclearVmcs => "VMLAUNCH with non-cleared VMCS",
        InstructionError::VmresumeNonlaunchedVmcs => "VMRESUME with non-launched VMCS",
        InstructionError::VmresumeAfterVmxoff => "VMRESUME after VMXOFF",
        InstructionError::VmentryInvalidCtrl => "Invalid control fields for VMENTRY",
        InstructionError::VmentryInvalidHostState => "Invalid host state for VMENTRY",
        InstructionError::VmptrldInvalidPhys => "Invalid physical address for VMPTRLD",
        InstructionError::VmptrldVmxonp => "VMPTRLD with VMXON pointer",
        InstructionError::VmptrldIncorrectRev => "Incorrect revision identifier for VMPTRLD",
        InstructionError::VmrwUnsupportedComponent => "Unsupported component in VMRW",
        InstructionError::VmwRoComponent => "Read-only component in VMWRITE",
        InstructionError::VmxonInVmxroot => "VMXON in VMX root operation",
        InstructionError::VmentryInvalidExecCtrl => "Invalid execution controls for VMENTRY",
        InstructionError::VmentryNonlaunchedExecCtrl => "Non-launched execution controls for VMENTRY",
        InstructionError::VmentryExecVmcsptr => "Execution control VMCS pointer for VMENTRY",
        InstructionError::VmcallNonclearVmcs => "VMCALL with non-cleared VMCS",
        InstructionError::VmcallInvalidExitctl => "Invalid exit control fields for VMCALL",
        InstructionError::VmcallIncorrectMsgrev => "Incorrect message revision for VMCALL",
        InstructionError::VmxoffDualmonitor => "VMXOFF in dual-monitor mode",
        InstructionError::VmcallInvalidSmm => "Invalid SMM state for VMCALL",
        InstructionError::VmentryInvalidExecctrl => "Invalid execution controls for VMENTRY",
        InstructionError::VmentryEventsBlocked => "Events blocked during VMENTRY",
        InstructionError::InvalidInvept => "Invalid INVEPT operation",
    }
}

impl InstructionError {
    /// The error with number `err` as read from the VM-instruction error
    /// field; an unknown number is refused.
    pub fn read(err: u32) -> (r: Result<Self, &'static str>)
        ensures
            match instruction_error_of(err) {
                Some(e) => r == Ok::<InstructionError, &'static str>(e),
                None => r is Err,
            },
    {
        match err {
            0 => Ok(InstructionError::NotAvailable),
            1 => Ok(InstructionError::VmcallInVmxroot),
            2 => Ok(InstructionError::VmclearInvalidPhys),
            3 => Ok(InstructionError::VmclearVmxonptr),
            4 => Ok(InstructionError::VmlaunchNonclearVmcs),
            5 => Ok(InstructionError::VmresumeNonlaunchedVmcs),
            6 => Ok(InstructionError::VmresumeAfterVmxoff),
            7 => Ok(InstructionError::VmentryInvalidCtrl),
            8 => Ok(InstructionError::VmentryInvalidHostState),
            9 => Ok(InstructionError::VmptrldInvalidPhys),
            10 => Ok(InstructionError::VmptrldVmxonp),
            11 => Ok(InstructionError::VmptrldIncorrectRev),
            12 => Ok(InstructionError::VmrwUnsupportedComponent),
            13 => Ok(InstructionError::VmwRoComponent),
            15 => Ok(InstructionError::VmxonInVmxroot),
            16 => Ok(InstructionError::VmentryInvalidExecCtrl),
            17 => Ok(InstructionError::VmentryNonlaunchedExecCtrl),
            18 => Ok(InstructionError::VmentryExecVmcsptr),
            19 => Ok(InstructionError::VmcallNonclearVmcs),
            20 => Ok(InstructionError::VmcallInvalidExitctl),
            22 => Ok(InstructionError::VmcallIncorrectMsgrev),
            23 => Ok(InstructionError::VmxoffDualmonitor),
            24 => Ok(InstructionError::VmcallInvalidSmm),
            25 => Ok(InstructionError::VmentryInvalidExecctrl),
            26 => Ok(InstructionError::VmentryEventsBlocked),
            28 => Ok(InstructionError::InvalidInvept),
            _ => Err("Unknown instruction error"),
        }
    }

    /// The error's number.
    pub fn number(self) -> (r: u32)
        ensures
            r == instruction_error_number(self),
            instruction_error_of(r) == Some(self),
    {
        match self {
            InstructionError::NotAvailable => 0,
            InstructionError::VmcallInVmxroot => 1,
            InstructionError::VmclearInvalidPhys => 2,
            InstructionError::VmclearVmxonptr => 3,
            InstructionError::VmlaunchNonclearVmcs => 4,
            InstructionError::VmresumeNonlaunchedVmcs => 5,
            InstructionError::VmresumeAfterVmxoff => 6,
            InstructionError::VmentryInvalidCtrl => 7,
            InstructionError::VmentryInvalidHostState => 8,
            InstructionError::VmptrldInvalidPhys => 9,
            InstructionError::VmptrldVmxonp => 10,
            InstructionError::VmptrldIncorrectRev => 11,
            InstructionError::VmrwUnsupportedComponent => 12,
            InstructionError::VmwRoComponent => 13,
            InstructionError::VmxonInVmxroot => 15,
            InstructionError::VmentryInvalidExecCtrl => 16,
            InstructionError::VmentryNonlaunchedExecCtrl => 17,
            InstructionError::VmentryExecVmcsptr => 18,
            InstructionError::VmcallNonclearVmcs => 19,
            InstructionError::VmcallInvalidExitctl => 20,
            InstructionError::VmcallIncorrectMsgrev => 22,
            InstructionError::VmxoffDualmonitor => 23,
            InstructionError::VmcallInvalidSmm => 24,
            InstructionError::VmentryInvalidExecctrl => 25,
            InstructionError::VmentryEventsBlocked => 26,
            InstructionError::InvalidInvept => 28,
        }
    }

    /// What the error means.
    pub fn to_str(self) -> (r: &'static str)
        ensures
            r == instruction_error_text(self),
    {
        match self {
            InstructionError::NotAvailable => "Instruction not available",
            InstructionError::VmcallInVmxroot => "VMCALL in VMX root operation",
            InstructionError::VmclearInvalidPhys => "Invalid physical address for VMCLEAR",
            InstructionError::VmclearVmxonptr => "VMCLEAR with VMXON pointer",
            InstructionError::VmlaunchNonclearVmcs => "VMLAUNCH with non-cleared VMCS",
            InstructionError::VmresumeNonlaunchedVmcs => "VMRESUME with non-launched VMCS",
            InstructionError::VmresumeAfterVmxoff => "VMRESUME after VMXOFF",
            InstructionError::VmentryInvalidCtrl => "Invalid control fields for VMENTRY",
            InstructionError::VmentryInvalidHostState => "Invalid host state for VMENTRY",
            InstructionError::VmptrldInvalidPhys => "Invalid physical address for VMPTRLD",
            InstructionError::VmptrldVmxonp => "VMPTRLD with VMXON pointer",
            InstructionError::VmptrldIncorrectRev => "Incorrect revision identifier for VMPTRLD",
            InstructionError::VmrwUnsupportedComponent => "Unsupported component in VMRW",
            InstructionError::VmwRoComponent => "Read-only component in VMWRITE",
            InstructionError::VmxonInVmxroot => "VMXON in VMX root operation",
            InstructionError::VmentryInvalidExecCtrl => "Invalid execution controls for VMENTRY",
            InstructionError::VmentryNonlaunchedExecCtrl => "Non-launched execution controls for VMENTRY",
            InstructionError::VmentryExecVmcsptr => "Execution control VMCS pointer for VMENTRY",
            InstructionError::VmcallNonclearVmcs => "VMCALL with non-cleared VMCS",
            InstructionError::VmcallInvalidExitctl => "Invalid exit control fields for VMCALL",
            InstructionError::VmcallIncorrectMsgrev => "Incorrect message revision for VMCALL",
            InstructionError::VmxoffDualmonitor => "VMXOFF in dual-monitor mode",
            InstructionError::VmcallInvalidSmm => "Invalid SMM state for VMCALL",
            InstructionError::VmentryInvalidExecctrl => "Invalid execution controls for VMENTRY",
            InstructionError::VmentryEventsBlocked => "Events blocked during VMENTRY",
            InstructionError::InvalidInvept => "Invalid INVEPT operation",
        }
    }
}

} // verus!
