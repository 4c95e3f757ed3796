//! The alias registry of the inbox `ROOT\\Cli` role (en-US): alias names, the WMI classes
//! they stand for, their descriptions and namespaces, and the help texts built from them.
use vstd::prelude::*;
use crate::record::{key_lt, lemma_key_lt_irreflexive, lemma_key_lt_transitive};
use crate::text::{
    chars_of, ci_eq, eq_ignore_case, extend, extend_str, lower, pad_right, push_spaces, string_of,
};

verus! {

/// One alias of the role: a friendly name for a WMI class in a namespace.
#[derive(Debug, Clone, Copy, PartialEq, Eq)]
pub struct Alias {
    pub name: &'static str,
    pub class: &'static str,
    pub description: &'static str,
    pub namespace: &'static str,
}

/// The number of aliases in the inbox role.
pub const ALIAS_COUNT: usize = 81;

/// The inbox role's aliases, in the order in which global help lists them.
pub open spec fn alias_table() -> Seq<Alias> {
    seq![
        Alias { name: "ALIAS", class: "MSFT_CliAlias", description: "Access to the aliases available on the local system", namespace: "root\\cli" },
        Alias { name: "BASEBOARD", class: "Win32_BaseBoard", description: "Base board (also known as a motherboard or system board) management.", namespace: "root\\cimv2" },
        Alias { name: "BIOS", class: "Win32_BIOS", description: "Basic input/output services (BIOS) management.", namespace: "root\\cimv2" },
        Alias { name: "BOOTCONFIG", class: "Win32_BootConfiguration", description: "Boot configuration management.", namespace: "root\\cimv2" },
        Alias { name: "CDROM", class: "Win32_CDROMDrive", description: "CD-ROM management.", namespace: "root\\cimv2" },
        Alias { name: "COMPUTERSYSTEM", class: "Win32_ComputerSystem", description: "Computer system management.", namespace: "root\\cimv2" },
        Alias { name: "CPU", class: "Win32_Processor", description: "CPU management.", namespace: "root\\cimv2" },
        Alias { name: "CSPRODUCT", class: "Win32_ComputerSystemProduct", description: "Computer system product information from SMBIOS.", namespace: "root\\cimv2" },
        Alias { name: "DATAFILE", class: "CIM_DataFile", description: "DataFile Management.", namespace: "root\\cimv2" },
        Alias { name: "DCOMAPP", class: "Win32_DCOMApplication", description: "DCOM Application management.", namespace: "root\\cimv2" },
        Alias { name: "DESKTOP", class: "Win32_Desktop", description: "User's Desktop management.", namespace: "root\\cimv2" },
        Alias { name: "DESKTOPMONITOR", class: "Win32_DesktopMonitor", description: "Desktop Monitor management.", namespace: "root\\cimv2" },
        Alias { name: "DEVICEMEMORYADDRESS", class: "Win32_DeviceMemoryAddress", description: "Device memory addresses management.", namespace: "root\\cimv2" },
        Alias { name: "DISKDRIVE", class: "Win32_DiskDrive", description: "Physical disk drive management.", namespace: "root\\cimv2" },
        Alias { name: "DISKQUOTA", class: "Win32_DiskQuota", description: "Disk space usage for NTFS volumes.", namespace: "root\\cimv2" },
        Alias { name: "DMACHANNEL", class: "Win32_DMAChannel", description: "Direct memory access (DMA) channel management.", namespace: "root\\cimv2" },
        Alias { name: "ENVIRONMENT", class: "Win32_Environment", description: "System environment settings management.", namespace: "root\\cimv2" },
        Alias { name: "FSDIR", class: "Win32_Directory", description: "Filesystem directory entry management.", namespace: "root\\cimv2" },
        Alias { name: "GROUP", class: "Win32_Group", description: "Group account management.", namespace: "root\\cimv2" },
        Alias { name: "IDECONTROLLER", class: "Win32_IDEController", description: "IDE Controller management.", namespace: "root\\cimv2" },
        Alias { name: "IRQ", class: "Win32_IRQResource", description: "Interrupt request line (IRQ) management.", namespace: "root\\cimv2" },
        Alias { name: "JOB", class: "Win32_ScheduledJob", description: "Provides access to jobs scheduled using the schedule service.", namespace: "root\\cimv2" },
        Alias { name: "LOADORDER", class: "Win32_LoadOrderGroup", description: "Management of system services that define execution dependencies.", namespace: "root\\cimv2" },
        Alias { name: "LOGICALDISK", class: "Win32_LogicalDisk", description: "Local storage device management.", namespace: "root\\cimv2" },
        Alias { name: "LOGON", class: "Win32_LogonSession", description: "LOGON Sessions.", namespace: "root\\cimv2" },
        Alias { name: "MEMCACHE", class: "Win32_CacheMemory", description: "Cache memory management.", namespace: "root\\cimv2" },
        Alias { name: "MEMORYCHIP", class: "Win32_PhysicalMemory", description: "Memory chip information.", namespace: "root\\cimv2" },
        Alias { name: "MEMPHYSICAL", class: "Win32_PhysicalMemoryArray", description: "Computer system's physical memory management.", namespace: "root\\cimv2" },
        Alias { name: "NETCLIENT", class: "Win32_NetworkClient", description: "Network Client management.", namespace: "root\\cimv2" },
        Alias { name: "NETLOGIN", class: "Win32_NetworkLoginProfile", description: "Network login information (of a particular user) management.", namespace: "root\\cimv2" },
        Alias { name: "NETPROTOCOL", class: "Win32_NetworkProtocol", description: "Protocols (and their network characteristics) management.", namespace: "root\\cimv2" },
        Alias { name: "NETUSE", class: "Win32_NetworkConnection", description: "Active network connection management.", namespace: "root\\cimv2" },
        Alias { name: "NIC", class: "Win32_NetworkAdapter", description: "Network Interface Controller (NIC) management.", namespace: "root\\cimv2" },
        Alias { name: "NICCONFIG", class: "Win32_NetworkAdapterConfiguration", description: "Network adapter management.", namespace: "root\\cimv2" },
        Alias { name: "NTDOMAIN", class: "Win32_NTDomain", description: "NT Domain management.", namespace: "root\\cimv2" },
        Alias { name: "NTEVENT", class: "Win32_NTLogEvent", description: "Entries in the NT Event Log.", namespace: "root\\cimv2" },
        Alias { name: "NTEVENTLOG", class: "Win32_NTEventlogFile", description: "NT eventlog file management.", namespace: "root\\cimv2" },
        Alias { name: "ONBOARDDEVICE", class: "Win32_OnBoardDevice", description: "Management of common adapter devices built into the motherboard (system board).", namespace: "root\\cimv2" },
        Alias { name: "OS", class: "Win32_OperatingSystem", description: "Installed Operating System/s management.", namespace: "root\\cimv2" },
        Alias { name: "PAGEFILE", class: "Win32_PageFileUsage", description: "Virtual memory file swapping management.", namespace: "root\\cimv2" },
        Alias { name: "PAGEFILESET", class: "Win32_PageFileSetting", description: "Page file settings management.", namespace: "root\\cimv2" },
        Alias { name: "PARTITION", class: "Win32_DiskPartition", description: "Management of partitioned areas of a physical disk.", namespace: "root\\cimv2" },
        Alias { name: "PORT", class: "Win32_PortResource", description: "I/O port management.", namespace: "root\\cimv2" },
        Alias { name: "PORTCONNECTOR", class: "Win32_PortConnector", description: "Physical connection ports management.", namespace: "root\\cimv2" },
        Alias { name: "PRINTER", class: "Win32_Printer", description: "Printer device management.", namespace: "root\\cimv2" },
        Alias { name: "PRINTERCONFIG", class: "Win32_PrinterConfiguration", description: "Printer device configuration management.", namespace: "root\\cimv2" },
        Alias { name: "PRINTJOB", class: "Win32_PrintJob", description: "Print job management.", namespace: "root\\cimv2" },
        Alias { name: "PROCESS", class: "Win32_Process", description: "Process management.", namespace: "root\\cimv2" },
        Alias { name: "PRODUCT", class: "Win32_Product", description: "Installation package task management.", namespace: "root\\cimv2" },
        Alias { name: "QFE", class: "Win32_QuickFixEngineering", description: "Quick Fix Engineering.", namespace: "root\\cimv2" },
        Alias { name: "QUOTASETTING", class: "Win32_QuotaSetting", description: "Setting information for disk quotas on a volume.", namespace: "root\\cimv2" },
        Alias { name: "RDACCOUNT", class: "Win32_TSAccount", description: "Remote Desktop connection permission management.", namespace: "root\\cimv2\\terminalservices" },
        Alias { name: "RDNIC", class: "Win32_TSNetworkAdapterSetting", description: "Remote Desktop connection management on a specific network adapter.", namespace: "root\\cimv2\\terminalservices" },
        Alias { name: "RDPERMISSIONS", class: "Win32_TSPermissionsSetting", description: "Permissions to a specific Remote Desktop connection.", namespace: "root\\cimv2\\terminalservices" },
        Alias { name: "RDTOGGLE", class: "Win32_TerminalServiceSetting", description: "Turning Remote Desktop listener on or off remotely.", namespace: "root\\cimv2\\terminalservices" },
        Alias { name: "RECOVEROS", class: "Win32_OSRecoveryConfiguration", description: "Information that will be gathered from memory when the operating system fails.", namespace: "root\\cimv2" },
        Alias { name: "REGISTRY", class: "StdRegProv", description: "Computer system registry management.", namespace: "root\\default" },
        Alias { name: "SCSICONTROLLER", class: "Win32_SCSIController", description: "SCSI Controller management.", namespace: "root\\cimv2" },
        Alias { name: "SERVER", class: "Win32_PerfRawData_PerfNet_Server", description: "Server information management.", namespace: "root\\cimv2" },
        Alias { name: "SERVICE", class: "Win32_Service", description: "Service application management.", namespace: "root\\cimv2" },
        Alias { name: "SHADOWCOPY", class: "Win32_ShadowCopy", description: "Shadow copy management.", namespace: "root\\cimv2" },
        Alias { name: "SHADOWSTORAGE", class: "Win32_ShadowStorage", description: "Shadow copy storage area management.", namespace: "root\\cimv2" },
        Alias { name: "SHARE", class: "Win32_Share", description: "Shared resource management.", namespace: "root\\cimv2" },
        Alias { name: "SOFTWAREELEMENT", class: "Win32_SoftwareElement", description: "Management of the elements of a software product installed on a system.", namespace: "root\\cimv2" },
        Alias { name: "SOFTWAREFEATURE", class: "Win32_SoftwareFeature", description: "Management of software product subsets of SoftwareElement.", namespace: "root\\cimv2" },
        Alias { name: "SOUNDDEV", class: "Win32_SoundDevice", description: "Sound Device management.", namespace: "root\\cimv2" },
        Alias { name: "STARTUP", class: "Win32_StartupCommand", description: "Management of commands that run automatically when users log onto the computer system.", namespace: "root\\cimv2" },
        Alias { name: "SYSACCOUNT", class: "Win32_SystemAccount", description: "System account management.", namespace: "root\\cimv2" },
        Alias { name: "SYSDRIVER", class: "Win32_SystemDriver", description: "Management of the system driver for a base service.", namespace: "root\\cimv2" },
        Alias { name: "SYSTEMENCLOSURE", class: "Win32_SystemEnclosure", description: "Physical system enclosure management.", namespace: "root\\cimv2" },
        Alias { name: "SYSTEMSLOT", class: "Win32_SystemSlot", description: "Management of physical connection points including ports, slots and peripherals, and proprietary connections points.", namespace: "root\\cimv2" },
        Alias { name: "TAPEDRIVE", class: "Win32_TapeDrive", description: "Tape drive management.", namespace: "root\\cimv2" },
        Alias { name: "TEMPERATURE", class: "Win32_TemperatureProbe", description: "Data management of a temperature sensor (electronic thermometer).", namespace: "root\\cimv2" },
        Alias { name: "TIMEZONE", class: "Win32_TimeZone", description: "Time zone data management.", namespace: "root\\cimv2" },
        Alias { name: "UPS", class: "Win32_UninterruptiblePowerSupply", description: "Uninterruptible power supply (UPS) management.", namespace: "root\\cimv2" },
        Alias { name: "USERACCOUNT", class: "Win32_UserAccount", description: "User account management.", namespace: "root\\cimv2" },
        Alias { name: "VOLTAGE", class: "Win32_VoltageProbe", description: "Voltage sensor (electronic voltmeter) data management.", namespace: "root\\cimv2" },
        Alias { name: "VOLUME", class: "Win32_Volume", description: "Local storage volume management.", namespace: "root\\cimv2" },
        Alias { name: "VOLUMEQUOTASETTING", class: "Win32_VolumeQuotaSetting", description: "Associates the disk quota setting with a specific disk volume.", namespace: "root\\cimv2" },
        Alias { name: "VOLUMEUSERQUOTA", class: "Win32_VolumeUserQuota", description: "Per user storage volume quota management.", namespace: "root\\cimv2" },
        Alias { name: "WMISET", class: "Win32_WMISetting", description: "WMI service operational parameters management.", namespace: "root\\cimv2" }
    ]
}

/// The alias table.
pub fn aliases() -> (r: Vec<Alias>)
    ensures
        r@ == alias_table(),
{
    vec![
        Alias { name: "ALIAS", class: "MSFT_CliAlias", description: "Access to the aliases available on the local system", namespace: "root\\cli" },
        Alias { name: "BASEBOARD", class: "Win32_BaseBoard", description: "Base board (also known as a motherboard or system board) management.", namespace: "root\\cimv2" },
        Alias { name: "BIOS", class: "Win32_BIOS", description: "Basic input/output services (BIOS) management.", namespace: "root\\cimv2" },
        Alias { name: "BOOTCONFIG", class: "Win32_BootConfiguration", description: "Boot configuration management.", namespace: "root\\cimv2" },
        Alias { name: "CDROM", class: "Win32_CDROMDrive", description: "CD-ROM management.", namespace: "root\\cimv2" },
        Alias { name: "COMPUTERSYSTEM", class: "Win32_ComputerSystem", description: "Computer system management.", namespace: "root\\cimv2" },
        Alias { name: "CPU", class: "Win32_Processor", description: "CPU management.", namespace: "root\\cimv2" },
        Alias { name: "CSPRODUCT", class: "Win32_ComputerSystemProduct", description: "Computer system product information from SMBIOS.", namespace: "root\\cimv2" },
        Alias { name: "DATAFILE", class: "CIM_DataFile", description: "DataFile Management.", namespace: "root\\cimv2" },
        Alias { name: "DCOMAPP", class: "Win32_DCOMApplication", description: "DCOM Application management.", namespace: "root\\cimv2" },
        Alias { name: "DESKTOP", class: "Win32_Desktop", description: "User's Desktop management.", namespace: "root\\cimv2" },
        Alias { name: "DESKTOPMONITOR", class: "Win32_DesktopMonitor", description: "Desktop Monitor management.", namespace: "root\\cimv2" },
        Alias { name: "DEVICEMEMORYADDRESS", class: "Win32_DeviceMemoryAddress", description: "Device memory addresses management.", namespace: "root\\cimv2" },
        Alias { name: "DISKDRIVE", class: "Win32_DiskDrive", description: "Physical disk drive management.", namespace: "root\\cimv2" },
        Alias { name: "DISKQUOTA", class: "Win32_DiskQuota", description: "Disk space usage for NTFS volumes.", namespace: "root\\cimv2" },
        Alias { name: "DMACHANNEL", class: "Win32_DMAChannel", description: "Direct memory access (DMA) channel management.", namespace: "root\\cimv2" },
        Alias { name: "ENVIRONMENT", class: "Win32_Environment", description: "System environment settings management.", namespace: "root\\cimv2" },
        Alias { name: "FSDIR", class: "Win32_Directory", description: "Filesystem directory entry management.", namespace: "root\\cimv2" },
        Alias { name: "GROUP", class: "Win32_Group", description: "Group account management.", namespace: "root\\cimv2" },
        Alias { name: "IDECONTROLLER", class: "Win32_IDEController", description: "IDE Controller management.", namespace: "root\\cimv2" },
        Alias { name: "IRQ", class: "Win32_IRQResource", description: "Interrupt request line (IRQ) management.", namespace: "root\\cimv2" },
        Alias { name: "JOB", class: "Win32_ScheduledJob", description: "Provides access to jobs scheduled using the schedule service.", namespace: "root\\cimv2" },
        Alias { name: "LOADORDER", class: "Win32_LoadOrderGroup", description: "Management of system services that define execution dependencies.", namespace: "root\\cimv2" },
        Alias { name: "LOGICALDISK", class: "Win32_LogicalDisk", description: "Local storage device management.", namespace: "root\\cimv2" },
        Alias { name: "LOGON", class: "Win32_LogonSession", description: "LOGON Sessions.", namespace: "root\\cimv2" },
        Alias { name: "MEMCACHE", class: "Win32_CacheMemory", description: "Cache memory management.", namespace: "root\\cimv2" },
        Alias { name: "MEMORYCHIP", class: "Win32_PhysicalMemory", description: "Memory chip information.", namespace: "root\\cimv2" },
        Alias { name: "MEMPHYSICAL", class: "Win32_PhysicalMemoryArray", description: "Computer system's physical memory management.", namespace: "root\\cimv2" },
        Alias { name: "NETCLIENT", class: "Win32_NetworkClient", description: "Network Client management.", namespace: "root\\cimv2" },
        Alias { name: "NETLOGIN", class: "Win32_NetworkLoginProfile", description: "Network login information (of a particular user) management.", namespace: "root\\cimv2" },
        Alias { name: "NETPROTOCOL", class: "Win32_NetworkProtocol", description: "Protocols (and their network characteristics) management.", namespace: "root\\cimv2" },
        Alias { name: "NETUSE", class: "Win32_NetworkConnection", description: "Active network connection management.", namespace: "root\\cimv2" },
        Alias { name: "NIC", class: "Win32_NetworkAdapter", description: "Network Interface Controller (NIC) management.", namespace: "root\\cimv2" },
        Alias { name: "NICCONFIG", class: "Win32_NetworkAdapterConfiguration", description: "Network adapter management.", namespace: "root\\cimv2" },
        Alias { name: "NTDOMAIN", class: "Win32_NTDomain", description: "NT Domain management.", namespace: "root\\cimv2" },
        Alias { name: "NTEVENT", class: "Win32_NTLogEvent", description: "Entries in the NT Event Log.", namespace: "root\\cimv2" },
        Alias { name: "NTEVENTLOG", class: "Win32_NTEventlogFile", description: "NT eventlog file management.", namespace: "root\\cimv2" },
        Alias { name: "ONBOARDDEVICE", class: "Win32_OnBoardDevice", description: "Management of common adapter devices built into the motherboard (system board).", namespace: "root\\cimv2" },
        Alias { name: "OS", class: "Win32_OperatingSystem", description: "Installed Operating System/s management.", namespace: "root\\cimv2" },
        Alias { name: "PAGEFILE", class: "Win32_PageFileUsage", description: "Virtual memory file swapping management.", namespace: "root\\cimv2" },
        Alias { name: "PAGEFILESET", class: "Win32_PageFileSetting", description: "Page file settings management.", namespace: "root\\cimv2" },
        Alias { name: "PARTITION", class: "Win32_DiskPartition", description: "Management of partitioned areas of a physical disk.", namespace: "root\\cimv2" },
        Alias { name: "PORT", class: "Win32_PortResource", description: "I/O port management.", namespace: "root\\cimv2" },
        Alias { name: "PORTCONNECTOR", class: "Win32_PortConnector", description: "Physical connection ports management.", namespace: "root\\cimv2" },
        Alias { name: "PRINTER", class: "Win32_Printer", description: "Printer device management.", namespace: "root\\cimv2" },
        Alias { name: "PRINTERCONFIG", class: "Win32_PrinterConfiguration", description: "Printer device configuration management.", namespace: "root\\cimv2" },
        Alias { name: "PRINTJOB", class: "Win32_PrintJob", description: "Print job management.", namespace: "root\\cimv2" },
        Alias { name: "PROCESS", class: "Win32_Process", description: "Process management.", namespace: "root\\cimv2" },
        Alias { name: "PRODUCT", class: "Win32_Product", description: "Installation package task management.", namespace: "root\\cimv2" },
        Alias { name: "QFE", class: "Win32_QuickFixEngineering", description: "Quick Fix Engineering.", namespace: "root\\cimv2" },
        Alias { name: "QUOTASETTING", class: "Win32_QuotaSetting", description: "Setting information for disk quotas on a volume.", namespace: "root\\cimv2" },
        Alias { name: "RDACCOUNT", class: "Win32_TSAccount", description: "Remote Desktop connection permission management.", namespace: "root\\cimv2\\terminalservices" },
        Alias { name: "RDNIC", class: "Win32_TSNetworkAdapterSetting", description: "Remote Desktop connection management on a specific network adapter.", namespace: "root\\cimv2\\terminalservices" },
        Alias { name: "RDPERMISSIONS", class: "Win32_TSPermissionsSetting", description: "Permissions to a specific Remote Desktop connection.", namespace: "root\\cimv2\\terminalservices" },
        Alias { name: "RDTOGGLE", class: "Win32_TerminalServiceSetting", description: "Turning Remote Desktop listener on or off remotely.", namespace: "root\\cimv2\\terminalservices" },
        Alias { name: "RECOVEROS", class: "Win32_OSRecoveryConfiguration", description: "Information that will be gathered from memory when the operating system fails.", namespace: "root\\cimv2" },
        Alias { name: "REGISTRY", class: "StdRegProv", description: "Computer system registry management.", namespace: "root\\default" },
        Alias { name: "SCSICONTROLLER", class: "Win32_SCSIController", description: "SCSI Controller management.", namespace: "root\\cimv2" },
        Alias { name: "SERVER", class: "Win32_PerfRawData_PerfNet_Server", description: "Server information management.", namespace: "root\\cimv2" },
        Alias { name: "SERVICE", class: "Win32_Service", description: "Service application management.", namespace: "root\\cimv2" },
        Alias { name: "SHADOWCOPY", class: "Win32_ShadowCopy", description: "Shadow copy management.", namespace: "root\\cimv2" },
        Alias { name: "SHADOWSTORAGE", class: "Win32_ShadowStorage", description: "Shadow copy storage area management.", namespace: "root\\cimv2" },
        Alias { name: "SHARE", class: "Win32_Share", description: "Shared resource management.", namespace: "root\\cimv2" },
        Alias { name: "SOFTWAREELEMENT", class: "Win32_SoftwareElement", description: "Management of the elements of a software product installed on a system.", namespace: "root\\cimv2" },
        Alias { name: "SOFTWAREFEATURE", class: "Win32_SoftwareFeature", description: "Management of software product subsets of SoftwareElement.", namespace: "root\\cimv2" },
        Alias { name: "SOUNDDEV", class: "Win32_SoundDevice", description: "Sound Device management.", namespace: "root\\cimv2" },
        Alias { name: "STARTUP", class: "Win32_StartupCommand", description: "Management of commands that run automatically when users log onto the computer system.", namespace: "root\\cimv2" },
        Alias { name: "SYSACCOUNT", class: "Win32_SystemAccount", description: "System account management.", namespace: "root\\cimv2" },
        Alias { name: "SYSDRIVER", class: "Win32_SystemDriver", description: "Management of the system driver for a base service.", namespace: "root\\cimv2" },
        Alias { name: "SYSTEMENCLOSURE", class: "Win32_SystemEnclosure", description: "Physical system enclosure management.", namespace: "root\\cimv2" },
        Alias { name: "SYSTEMSLOT", class: "Win32_SystemSlot", description: "Management of physical connection points including ports, slots and peripherals, and proprietary connections points.", namespace: "root\\cimv2" },
        Alias { name: "TAPEDRIVE", class: "Win32_TapeDrive", description: "Tape drive management.", namespace: "root\\cimv2" },
        Alias { name: "TEMPERATURE", class: "Win32_TemperatureProbe", description: "Data management of a temperature sensor (electronic thermometer).", namespace: "root\\cimv2" },
        Alias { name: "TIMEZONE", class: "Win32_TimeZone", description: "Time zone data management.", namespace: "root\\cimv2" },
        Alias { name: "UPS", class: "Win32_UninterruptiblePowerSupply", description: "Uninterruptible power supply (UPS) management.", namespace: "root\\cimv2" },
        Alias { name: "USERACCOUNT", class: "Win32_UserAccount", description: "User account management.", namespace: "root\\cimv2" },
        Alias { name: "VOLTAGE", class: "Win32_VoltageProbe", description: "Voltage sensor (electronic voltmeter) data management.", namespace: "root\\cimv2" },
        Alias { name: "VOLUME", class: "Win32_Volume", description: "Local storage volume management.", namespace: "root\\cimv2" },
        Alias { name: "VOLUMEQUOTASETTING", class: "Win32_VolumeQuotaSetting", description: "Associates the disk quota setting with a specific disk volume.", namespace: "root\\cimv2" },
        Alias { name: "VOLUMEUSERQUOTA", class: "Win32_VolumeUserQuota", description: "Per user storage volume quota management.", namespace: "root\\cimv2" },
        Alias { name: "WMISET", class: "Win32_WMISetting", description: "WMI service operational parameters management.", namespace: "root\\cimv2" }
    ]
}

/// Index of the first alias at or after `from` whose name equals `name` up to ASCII case.
pub open spec fn find_index_from(name: Seq<char>, from: int) -> Option<int>
    decreases alias_table().len() - from,
{
    if from < 0 || from >= alias_table().len() {
        None
    } else if ci_eq(alias_table()[from].name@, name) {
        Some(from)
    } else {
        find_index_from(name, from + 1)
    }
}

/// The alias that `name` designates: the first whose name equals it up to ASCII case.
pub open spec fn find_spec(name: Seq<char>) -> Option<Alias> {
    match find_index_from(name, 0) {
        Some(i) => Some(alias_table()[i]),
        None => None,
    }
}

// ---------------------------------------------------------------------------
// Laws of the alias table
// ---------------------------------------------------------------------------

/// A word of ASCII upper-case letters.
pub open spec fn upper_word(s: Seq<char>) -> bool
    decreases s.len(),
{
    s.len() == 0 || ('A' <= s[0] && s[0] <= 'Z' && upper_word(s.drop_first()))
}

pub proof fn lemma_upper_word(s: Seq<char>)
    requires
        upper_word(s),
    ensures
        forall|k: int| 0 <= k < s.len() ==> 'A' <= #[trigger] s[k] && s[k] <= 'Z',
    decreases s.len(),
{
    if s.len() > 0 {
        lemma_upper_word(s.drop_first());
        assert forall|k: int| 0 <= k < s.len() implies 'A' <= #[trigger] s[k] && s[k] <= 'Z' by {
            if k > 0 {
                assert(s[k] == s.drop_first()[k - 1]);
            }
        }
    }
}

proof fn lemma_names_ascend_0()
    ensures
        forall|i: int|
            0 <= i < 10 ==> #[trigger] key_lt(alias_table()[i].name@, alias_table()[i + 1].name@),
{
    reveal_strlit("ALIAS");
    reveal_strlit("BASEBOARD");
    reveal_strlit("BIOS");
    reveal_strlit("BOOTCONFIG");
    reveal_strlit("CDROM");
    reveal_strlit("COMPUTERSYSTEM");
    reveal_strlit("CPU");
    reveal_strlit("CSPRODUCT");
    reveal_strlit("DATAFILE");
    reveal_strlit("DCOMAPP");
    reveal_strlit("DESKTOP");
    reveal_with_fuel(key_lt, 10);
    assert(key_lt(alias_table()[0].name@, alias_table()[1].name@));
    assert(key_lt(alias_table()[1].name@, alias_table()[2].name@));
    assert(key_lt(alias_table()[2].name@, alias_table()[3].name@));
    assert(key_lt(alias_table()[3].name@, alias_table()[4].name@));
    assert(key_lt(alias_table()[4].name@, alias_table()[5].name@));
    assert(key_lt(alias_table()[5].name@, alias_table()[6].name@));
    assert(key_lt(alias_table()[6].name@, alias_table()[7].name@));
    assert(key_lt(alias_table()[7].name@, alias_table()[8].name@));
    assert(key_lt(alias_table()[8].name@, alias_table()[9].name@));
    assert(key_lt(alias_table()[9].name@, alias_table()[10].name@));
}

proof fn lemma_names_ascend_10()
    ensures
        forall|i: int|
            10 <= i < 20 ==> #[trigger] key_lt(alias_table()[i].name@, alias_table()[i + 1].name@),
{
    reveal_strlit("DESKTOP");
    reveal_strlit("DESKTOPMONITOR");
    reveal_strlit("DEVICEMEMORYADDRESS");
    reveal_strlit("DISKDRIVE");
    reveal_strlit("DISKQUOTA");
    reveal_strlit("DMACHANNEL");
    reveal_strlit("ENVIRONMENT");
    reveal_strlit("FSDIR");
    reveal_strlit("GROUP");
    reveal_strlit("IDECONTROLLER");
    reveal_strlit("IRQ");
    reveal_with_fuel(key_lt, 10);
    assert(key_lt(alias_table()[10].name@, alias_table()[11].name@));
    assert(key_lt(alias_table()[11].name@, alias_table()[12].name@));
    assert(key_lt(alias_table()[12].name@, alias_table()[13].name@));
    assert(key_lt(alias_table()[13].name@, alias_table()[14].name@));
    assert(key_lt(alias_table()[14].name@, alias_table()[15].name@));
    assert(key_lt(alias_table()[15].name@, alias_table()[16].name@));
    assert(key_lt(alias_table()[16].name@, alias_table()[17].name@));
    assert(key_lt(alias_table()[17].name@, alias_table()[18].name@));
    assert(key_lt(alias_table()[18].name@, alias_table()[19].name@));
    assert(key_lt(alias_table()[19].name@, alias_table()[20].name@));
}

proof fn lemma_names_ascend_20()
    ensures
        forall|i: int|
            20 <= i < 30 ==> #[trigger] key_lt(alias_table()[i].name@, alias_table()[i + 1].name@),
{
    reveal_strlit("IRQ");
    reveal_strlit("JOB");
    reveal_strlit("LOADORDER");
    reveal_strlit("LOGICALDISK");
    reveal_strlit("LOGON");
    reveal_strlit("MEMCACHE");
    reveal_strlit("MEMORYCHIP");
    reveal_strlit("MEMPHYSICAL");
    reveal_strlit("NETCLIENT");
    reveal_strlit("NETLOGIN");
    reveal_strlit("NETPROTOCOL");
    reveal_with_fuel(key_lt, 10);
    assert(key_lt(alias_table()[20].name@, alias_table()[21].name@));
    assert(key_lt(alias_table()[21].name@, alias_table()[22].name@));
    assert(key_lt(alias_table()[22].name@, alias_table()[23].name@));
    assert(key_lt(alias_table()[23].name@, alias_table()[24].name@));
    assert(key_lt(alias_table()[24].name@, alias_table()[25].name@));
    assert(key_lt(alias_table()[25].name@, alias_table()[26].name@));
    assert(key_lt(alias_table()[26].name@, alias_table()[27].name@));
    assert(key_lt(alias_table()[27].name@, alias_table()[28].name@));
    assert(key_lt(alias_table()[28].name@, alias_table()[29].name@));
    assert(key_lt(alias_table()[29].name@, alias_table()[30].name@));
}

proof fn lemma_names_ascend_30()
    ensures
        forall|i: int|
            30 <= i < 40 ==> #[trigger] key_lt(alias_table()[i].name@, alias_table()[i + 1].name@),
{
    reveal_strlit("NETPROTOCOL");
    reveal_strlit("NETUSE");
    reveal_strlit("NIC");
    reveal_strlit("NICCONFIG");
    reveal_strlit("NTDOMAIN");
    reveal_strlit("NTEVENT");
    reveal_strlit("NTEVENTLOG");
    reveal_strlit("ONBOARDDEVICE");
    reveal_strlit("OS");
    reveal_strlit("PAGEFILE");
    reveal_strlit("PAGEFILESET");
    reveal_with_fuel(key_lt, 10);
    assert(key_lt(alias_table()[30].name@, alias_table()[31].name@));
    assert(key_lt(alias_table()[31].name@, alias_table()[32].name@));
    assert(key_lt(alias_table()[32].name@, alias_table()[33].name@));
    assert(key_lt(alias_table()[33].name@, alias_table()[34].name@));
    assert(key_lt(alias_table()[34].name@, alias_table()[35].name@));
    assert(key_lt(alias_table()[35].name@, alias_table()[36].name@));
    assert(key_lt(alias_table()[36].name@, alias_table()[37].name@));
    assert(key_lt(alias_table()[37].name@, alias_table()[38].name@));
    assert(key_lt(alias_table()[38].name@, alias_table()[39].name@));
    assert(key_lt(alias_table()[39].name@, alias_table()[40].name@));
}

proof fn lemma_names_ascend_40()
    ensures
        forall|i: int|
            40 <= i < 50 ==> #[trigger] key_lt(alias_table()[i].name@, alias_table()[i + 1].name@),
{
    reveal_strlit("PAGEFILESET");
    reveal_strlit("PARTITION");
    reveal_strlit("PORT");
    reveal_strlit("PORTCONNECTOR");
    reveal_strlit("PRINTER");
    reveal_strlit("PRINTERCONFIG");
    reveal_strlit("PRINTJOB");
    reveal_strlit("PROCESS");
    reveal_strlit("PRODUCT");
    reveal_strlit("QFE");
    reveal_strlit("QUOTASETTING");
    reveal_with_fuel(key_lt, 10);
    assert(key_lt(alias_table()[40].name@, alias_table()[41].name@));
    assert(key_lt(alias_table()[41].name@, alias_table()[42].name@));
    assert(key_lt(alias_table()[42].name@, alias_table()[43].name@));
    assert(key_lt(alias_table()[43].name@, alias_table()[44].name@));
    assert(key_lt(alias_table()[44].name@, alias_table()[45].name@));
    assert(key_lt(alias_table()[45].name@, alias_table()[46].name@));
    assert(key_lt(alias_table()[46].name@, alias_table()[47].name@));
    assert(key_lt(alias_table()[47].name@, alias_table()[48].name@));
    assert(key_lt(alias_table()[48].name@, alias_table()[49].name@));
    assert(key_lt(alias_table()[49].name@, alias_table()[50].name@));
}

proof fn lemma_names_ascend_50()
    ensures
        forall|i: int|
            50 <= i < 60 ==> #[trigger] key_lt(alias_table()[i].name@, alias_table()[i + 1].name@),
{
    reveal_strlit("QUOTASETTING");
    reveal_strlit("RDACCOUNT");
    reveal_strlit("RDNIC");
    reveal_strlit("RDPERMISSIONS");
    reveal_strlit("RDTOGGLE");
    reveal_strlit("RECOVEROS");
    reveal_strlit("REGISTRY");
    reveal_strlit("SCSICONTROLLER");
    reveal_strlit("SERVER");
    reveal_strlit("SERVICE");
    reveal_strlit("SHADOWCOPY");
    reveal_with_fuel(key_lt, 10);
    assert(key_lt(alias_table()[50].name@, alias_table()[51].name@));
    assert(key_lt(alias_table()[51].name@, alias_table()[52].name@));
    assert(key_lt(alias_table()[52].name@, alias_table()[53].name@));
    assert(key_lt(alias_table()[53].name@, alias_table()[54].name@));
    assert(key_lt(alias_table()[54].name@, alias_table()[55].name@));
    assert(key_lt(alias_table()[55].name@, alias_table()[56].name@));
    assert(key_lt(alias_table()[56].name@, alias_table()[57].name@));
    assert(key_lt(alias_table()[57].name@, alias_table()[58].name@));
    assert(key_lt(alias_table()[58].name@, alias_table()[59].name@));
    assert(key_lt(alias_table()[59].name@, alias_table()[60].name@));
}

proof fn lemma_names_ascend_60()
    ensures
        forall|i: int|
            60 <= i < 70 ==> #[trigger] key_lt(alias_table()[i].name@, alias_table()[i + 1].name@),
{
    reveal_strlit("SHADOWCOPY");
    reveal_strlit("SHADOWSTORAGE");
    reveal_strlit("SHARE");
    reveal_strlit("SOFTWAREELEMENT");
    reveal_strlit("SOFTWAREFEATURE");
    reveal_strlit("SOUNDDEV");
    reveal_strlit("STARTUP");
    reveal_strlit("SYSACCOUNT");
    reveal_strlit("SYSDRIVER");
    reveal_strlit("SYSTEMENCLOSURE");
    reveal_strlit("SYSTEMSLOT");
    reveal_with_fuel(key_lt, 10);
    assert(key_lt(alias_table()[60].name@, alias_table()[61].name@));
    assert(key_lt(alias_table()[61].name@, alias_table()[62].name@));
    assert(key_lt(alias_table()[62].name@, alias_table()[63].name@));
    assert(key_lt(alias_table()[63].name@, alias_table()[64].name@));
    assert(key_lt(alias_table()[64].name@, alias_table()[65].name@));
    assert(key_lt(alias_table()[65].name@, alias_table()[66].name@));
    assert(key_lt(alias_table()[66].name@, alias_table()[67].name@));
    assert(key_lt(alias_table()[67].name@, alias_table()[68].name@));
    assert(key_lt(alias_table()[68].name@, alias_table()[69].name@));
    assert(key_lt(alias_table()[69].name@, alias_table()[70].name@));
}

proof fn lemma_names_ascend_70()
    ensures
        forall|i: int|
            70 <= i < 80 ==> #[trigger] key_lt(alias_table()[i].name@, alias_table()[i + 1].name@),
{
    reveal_strlit("SYSTEMSLOT");
    reveal_strlit("TAPEDRIVE");
    reveal_strlit("TEMPERATURE");
    reveal_strlit("TIMEZONE");
    reveal_strlit("UPS");
    reveal_strlit("USERACCOUNT");
    reveal_strlit("VOLTAGE");
    reveal_strlit("VOLUME");
    reveal_strlit("VOLUMEQUOTASETTING");
    reveal_strlit("VOLUMEUSERQUOTA");
    reveal_strlit("WMISET");
    reveal_with_fuel(key_lt, 10);
    assert(key_lt(alias_table()[70].name@, alias_table()[71].name@));
    assert(key_lt(alias_table()[71].name@, alias_table()[72].name@));
    assert(key_lt(alias_table()[72].name@, alias_table()[73].name@));
    assert(key_lt(alias_table()[73].name@, alias_table()[74].name@));
    assert(key_lt(alias_table()[74].name@, alias_table()[75].name@));
    assert(key_lt(alias_table()[75].name@, alias_table()[76].name@));
    assert(key_lt(alias_table()[76].name@, alias_table()[77].name@));
    assert(key_lt(alias_table()[77].name@, alias_table()[78].name@));
    assert(key_lt(alias_table()[78].name@, alias_table()[79].name@));
    assert(key_lt(alias_table()[79].name@, alias_table()[80].name@));
}

proof fn lemma_upper_names_0()
    ensures
        forall|i: int| 0 <= i < 10 ==> #[trigger] upper_word(alias_table()[i].name@),
{
    reveal_with_fuel(upper_word, 25);
    reveal_strlit("ALIAS");
    reveal_strlit("BASEBOARD");
    reveal_strlit("BIOS");
    reveal_strlit("BOOTCONFIG");
    reveal_strlit("CDROM");
    reveal_strlit("COMPUTERSYSTEM");
    reveal_strlit("CPU");
    reveal_strlit("CSPRODUCT");
    reveal_strlit("DATAFILE");
    reveal_strlit("DCOMAPP");
    assert(upper_word(alias_table()[0].name@));
    assert(upper_word(alias_table()[1].name@));
    assert(upper_word(alias_table()[2].name@));
    assert(upper_word(alias_table()[3].name@));
    assert(upper_word(alias_table()[4].name@));
    assert(upper_word(alias_table()[5].name@));
    assert(upper_word(alias_table()[6].name@));
    assert(upper_word(alias_table()[7].name@));
    assert(upper_word(alias_table()[8].name@));
    assert(upper_word(alias_table()[9].name@));
}

proof fn lemma_upper_names_10()
    ensures
        forall|i: int| 10 <= i < 20 ==> #[trigger] upper_word(alias_table()[i].name@),
{
    reveal_with_fuel(upper_word, 25);
    reveal_strlit("DESKTOP");
    reveal_strlit("DESKTOPMONITOR");
    reveal_strlit("DEVICEMEMORYADDRESS");
    reveal_strlit("DISKDRIVE");
    reveal_strlit("DISKQUOTA");
    reveal_strlit("DMACHANNEL");
    reveal_strlit("ENVIRONMENT");
    reveal_strlit("FSDIR");
    reveal_strlit("GROUP");
    reveal_strlit("IDECONTROLLER");
    assert(upper_word(alias_table()[10].name@));
    assert(upper_word(alias_table()[11].name@));
    assert(upper_word(alias_table()[12].name@));
    assert(upper_word(alias_table()[13].name@));
    assert(upper_word(alias_table()[14].name@));
    assert(upper_word(alias_table()[15].name@));
    assert(upper_word(alias_table()[16].name@));
    assert(upper_word(alias_table()[17].name@));
    assert(upper_word(alias_table()[18].name@));
    assert(upper_word(alias_table()[19].name@));
}

proof fn lemma_upper_names_20()
    ensures
        forall|i: int| 20 <= i < 30 ==> #[trigger] upper_word(alias_table()[i].name@),
{
    reveal_with_fuel(upper_word, 25);
    reveal_strlit("IRQ");
    reveal_strlit("JOB");
    reveal_strlit("LOADORDER");
    reveal_strlit("LOGICALDISK");
    reveal_strlit("LOGON");
    reveal_strlit("MEMCACHE");
    reveal_strlit("MEMORYCHIP");
    reveal_strlit("MEMPHYSICAL");
    reveal_strlit("NETCLIENT");
    reveal_strlit("NETLOGIN");
    assert(upper_word(alias_table()[20].name@));
    assert(upper_word(alias_table()[21].name@));
    assert(upper_word(alias_table()[22].name@));
    assert(upper_word(alias_table()[23].name@));
    assert(upper_word(alias_table()[24].name@));
    assert(upper_word(alias_table()[25].name@));
    assert(upper_word(alias_table()[26].name@));
    assert(upper_word(alias_table()[27].name@));
    assert(upper_word(alias_table()[28].name@));
    assert(upper_word(alias_table()[29].name@));
}

proof fn lemma_upper_names_30()
    ensures
        forall|i: int| 30 <= i < 40 ==> #[trigger] upper_word(alias_table()[i].name@),
{
    reveal_with_fuel(upper_word, 25);
    reveal_strlit("NETPROTOCOL");
    reveal_strlit("NETUSE");
    reveal_strlit("NIC");
    reveal_strlit("NICCONFIG");
    reveal_strlit("NTDOMAIN");
    reveal_strlit("NTEVENT");
    reveal_strlit("NTEVENTLOG");
    reveal_strlit("ONBOARDDEVICE");
    reveal_strlit("OS");
    reveal_strlit("PAGEFILE");
    assert(upper_word(alias_table()[30].name@));
    assert(upper_word(alias_table()[31].name@));
    assert(upper_word(alias_table()[32].name@));
    assert(upper_word(alias_table()[33].name@));
    assert(upper_word(alias_table()[34].name@));
    assert(upper_word(alias_table()[35].name@));
    assert(upper_word(alias_table()[36].name@));
    assert(upper_word(alias_table()[37].name@));
    assert(upper_word(alias_table()[38].name@));
    assert(upper_word(alias_table()[39].name@));
}

proof fn lemma_upper_names_40()
    ensures
        forall|i: int| 40 <= i < 50 ==> #[trigger] upper_word(alias_table()[i].name@),
{
    reveal_with_fuel(upper_word, 25);
    reveal_strlit("PAGEFILESET");
    reveal_strlit("PARTITION");
    reveal_strlit("PORT");
    reveal_strlit("PORTCONNECTOR");
    reveal_strlit("PRINTER");
    reveal_strlit("PRINTERCONFIG");
    reveal_strlit("PRINTJOB");
    reveal_strlit("PROCESS");
    reveal_strlit("PRODUCT");
    reveal_strlit("QFE");
    assert(upper_word(alias_table()[40].name@));
    assert(upper_word(alias_table()[41].name@));
    assert(upper_word(alias_table()[42].name@));
    assert(upper_word(alias_table()[43].name@));
    assert(upper_word(alias_table()[44].name@));
    assert(upper_word(alias_table()[45].name@));
    assert(upper_word(alias_table()[46].name@));
    assert(upper_word(alias_table()[47].name@));
    assert(upper_word(alias_table()[48].name@));
    assert(upper_word(alias_table()[49].name@));
}

proof fn lemma_upper_names_50()
    ensures
        forall|i: int| 50 <= i < 60 ==> #[trigger] upper_word(alias_table()[i].name@),
{
    reveal_with_fuel(upper_word, 25);
    reveal_strlit("QUOTASETTING");
    reveal_strlit("RDACCOUNT");
    reveal_strlit("RDNIC");
    reveal_strlit("RDPERMISSIONS");
    reveal_strlit("RDTOGGLE");
    reveal_strlit("RECOVEROS");
    reveal_strlit("REGISTRY");
    reveal_strlit("SCSICONTROLLER");
    reveal_strlit("SERVER");
    reveal_strlit("SERVICE");
    assert(upper_word(alias_table()[50].name@));
    assert(upper_word(alias_table()[51].name@));
    assert(upper_word(alias_table()[52].name@));
    assert(upper_word(alias_table()[53].name@));
    assert(upper_word(alias_table()[54].name@));
    assert(upper_word(alias_table()[55].name@));
    assert(upper_word(alias_table()[56].name@));
    assert(upper_word(alias_table()[57].name@));
    assert(upper_word(alias_table()[58].name@));
    assert(upper_word(alias_table()[59].name@));
}

proof fn lemma_upper_names_60()
    ensures
        forall|i: int| 60 <= i < 70 ==> #[trigger] upper_word(alias_table()[i].name@),
{
    reveal_with_fuel(upper_word, 25);
    reveal_strlit("SHADOWCOPY");
    reveal_strlit("SHADOWSTORAGE");
    reveal_strlit("SHARE");
    reveal_strlit("SOFTWAREELEMENT");
    reveal_strlit("SOFTWAREFEATURE");
    reveal_strlit("SOUNDDEV");
    reveal_strlit("STARTUP");
    reveal_strlit("SYSACCOUNT");
    reveal_strlit("SYSDRIVER");
    reveal_strlit("SYSTEMENCLOSURE");
    assert(upper_word(alias_table()[60].name@));
    assert(upper_word(alias_table()[61].name@));
    assert(upper_word(alias_table()[62].name@));
    assert(upper_word(alias_table()[63].name@));
    assert(upper_word(alias_table()[64].name@));
    assert(upper_word(alias_table()[65].name@));
    assert(upper_word(alias_table()[66].name@));
    assert(upper_word(alias_table()[67].name@));
    assert(upper_word(alias_table()[68].name@));
    assert(upper_word(alias_table()[69].name@));
}

proof fn lemma_upper_names_70()
    ensures
        forall|i: int| 70 <= i < 80 ==> #[trigger] upper_word(alias_table()[i].name@),
{
    reveal_with_fuel(upper_word, 25);
    reveal_strlit("SYSTEMSLOT");
    reveal_strlit("TAPEDRIVE");
    reveal_strlit("TEMPERATURE");
    reveal_strlit("TIMEZONE");
    reveal_strlit("UPS");
    reveal_strlit("USERACCOUNT");
    reveal_strlit("VOLTAGE");
    reveal_strlit("VOLUME");
    reveal_strlit("VOLUMEQUOTASETTING");
    reveal_strlit("VOLUMEUSERQUOTA");
    assert(upper_word(alias_table()[70].name@));
    assert(upper_word(alias_table()[71].name@));
    assert(upper_word(alias_table()[72].name@));
    assert(upper_word(alias_table()[73].name@));
    assert(upper_word(alias_table()[74].name@));
    assert(upper_word(alias_table()[75].name@));
    assert(upper_word(alias_table()[76].name@));
    assert(upper_word(alias_table()[77].name@));
    assert(upper_word(alias_table()[78].name@));
    assert(upper_word(alias_table()[79].name@));
}

proof fn lemma_upper_names_80()
    ensures
        forall|i: int| 80 <= i < 81 ==> #[trigger] upper_word(alias_table()[i].name@),
{
    reveal_with_fuel(upper_word, 25);
    reveal_strlit("WMISET");
    assert(upper_word(alias_table()[80].name@));
}

proof fn lemma_names_ascend_adjacent()
    ensures
        forall|i: int|
            0 <= i < alias_table().len() - 1 ==> #[trigger] key_lt(
                alias_table()[i].name@,
                alias_table()[i + 1].name@,
            ),
{
    lemma_names_ascend_0();
    lemma_names_ascend_10();
    lemma_names_ascend_20();
    lemma_names_ascend_30();
    lemma_names_ascend_40();
    lemma_names_ascend_50();
    lemma_names_ascend_60();
    lemma_names_ascend_70();
}

proof fn lemma_upper_names()
    ensures
        forall|i: int| 0 <= i < alias_table().len() ==> #[trigger] upper_word(alias_table()[i].name@),
{
    lemma_upper_names_0();
    lemma_upper_names_10();
    lemma_upper_names_20();
    lemma_upper_names_30();
    lemma_upper_names_40();
    lemma_upper_names_50();
    lemma_upper_names_60();
    lemma_upper_names_70();
    lemma_upper_names_80();
}

proof fn lemma_names_ascend_from(i: int, j: int)
    requires
        0 <= i < j < alias_table().len(),
    ensures
        key_lt(alias_table()[i].name@, alias_table()[j].name@),
    decreases j - i,
{
    lemma_names_ascend_adjacent();
    if j > i + 1 {
        lemma_names_ascend_from(i + 1, j);
        assert(key_lt(alias_table()[i].name@, alias_table()[i + 1].name@));
        lemma_key_lt_transitive(
            alias_table()[i].name@,
            alias_table()[i + 1].name@,
            alias_table()[j].name@,
        );
    }
}

/// Upper-case words that are equal up to ASCII case are equal.
proof fn lemma_ci_eq_upper(a: Seq<char>, b: Seq<char>)
    requires
        upper_word(a),
        upper_word(b),
        ci_eq(a, b),
    ensures
        a == b,
{
    lemma_upper_word(a);
    lemma_upper_word(b);
    assert(lower(a).len() == lower(b).len());
    assert forall|k: int| 0 <= k < a.len() implies a[k] == b[k] by {
        assert(lower(a)[k] == lower(b)[k]);
        assert(!('a' <= a[k] && a[k] <= 'z'));
        assert(!('a' <= b[k] && b[k] <= 'z'));
    }
    assert(a =~= b);
}

/// The table has 81 aliases, and no two of their names are equal, even ignoring ASCII case.
pub proof fn law_alias_names_distinct()
    ensures
        alias_table().len() == 81,
        forall|i: int, j: int|
            0 <= i < j < alias_table().len() ==> !ci_eq(
                #[trigger] alias_table()[i].name@,
                #[trigger] alias_table()[j].name@,
            ),
{
    lemma_upper_names();
    assert forall|i: int, j: int| 0 <= i < j < alias_table().len() implies !ci_eq(
        #[trigger] alias_table()[i].name@,
        #[trigger] alias_table()[j].name@,
    ) by {
        lemma_names_ascend_from(i, j);
        if ci_eq(alias_table()[i].name@, alias_table()[j].name@) {
            assert(upper_word(alias_table()[i].name@));
            assert(upper_word(alias_table()[j].name@));
            lemma_ci_eq_upper(alias_table()[i].name@, alias_table()[j].name@);
            lemma_key_lt_irreflexive(alias_table()[i].name@);
        }
    }
}

proof fn lemma_found_from(i: int, from: int)
    requires
        0 <= from <= i < alias_table().len(),
    ensures
        find_index_from(alias_table()[i].name@, from) == Some(i),
    decreases i - from,
{
    if from < i {
        law_alias_names_distinct();
        assert(!ci_eq(alias_table()[from].name@, alias_table()[i].name@));
        lemma_found_from(i, from + 1);
    }
}

/// No alias has the name `word`, even ignoring ASCII case, when `word` is an upper-case word
/// that sorts between the names at `p` and `p + 1` (before the first when `p` is -1, after the
/// last when `p + 1` is the table's length).
proof fn lemma_no_alias_named(word: Seq<char>, p: int)
    requires
        upper_word(word),
        -1 <= p < alias_table().len(),
        p >= 0 ==> key_lt(alias_table()[p].name@, word),
        p + 1 < alias_table().len() ==> key_lt(word, alias_table()[p + 1].name@),
    ensures
        forall|i: int| 0 <= i < alias_table().len() ==> !ci_eq(#[trigger] alias_table()[i].name@, word),
{
    lemma_upper_names();
    assert forall|i: int| 0 <= i < alias_table().len() implies !ci_eq(
        #[trigger] alias_table()[i].name@,
        word,
    ) by {
        let name = alias_table()[i].name@;
        if i < p {
            lemma_names_ascend_from(i, p);
            lemma_key_lt_transitive(name, alias_table()[p].name@, word);
        } else if i > p + 1 {
            lemma_names_ascend_from(p + 1, i);
            lemma_key_lt_transitive(word, alias_table()[p + 1].name@, name);
        }
        if ci_eq(name, word) {
            assert(upper_word(name));
            lemma_ci_eq_upper(name, word);
            lemma_key_lt_irreflexive(word);
        }
    }
}

/// No alias is named like a command word (PATH, CLASS, CONTEXT, QUIT, EXIT) or a global switch,
/// even ignoring ASCII case; every alias name is an upper-case word.
pub proof fn law_alias_names_are_not_keywords(i: int)
    requires
        0 <= i < alias_table().len(),
    ensures
        upper_word(alias_table()[i].name@),
        !ci_eq(alias_table()[i].name@, "PATH"@),
        !ci_eq(alias_table()[i].name@, "CLASS"@),
        !ci_eq(alias_table()[i].name@, "CONTEXT"@),
        !ci_eq(alias_table()[i].name@, "QUIT"@),
        !ci_eq(alias_table()[i].name@, "EXIT"@),
        !ci_eq(alias_table()[i].name@, "NAMESPACE"@),
        !ci_eq(alias_table()[i].name@, "ROLE"@),
        !ci_eq(alias_table()[i].name@, "NODE"@),
        !ci_eq(alias_table()[i].name@, "IMPLEVEL"@),
        !ci_eq(alias_table()[i].name@, "AUTHLEVEL"@),
        !ci_eq(alias_table()[i].name@, "LOCALE"@),
        !ci_eq(alias_table()[i].name@, "PRIVILEGES"@),
        !ci_eq(alias_table()[i].name@, "TRACE"@),
        !ci_eq(alias_table()[i].name@, "RECORD"@),
        !ci_eq(alias_table()[i].name@, "INTERACTIVE"@),
        !ci_eq(alias_table()[i].name@, "FAILFAST"@),
        !ci_eq(alias_table()[i].name@, "USER"@),
        !ci_eq(alias_table()[i].name@, "PASSWORD"@),
        !ci_eq(alias_table()[i].name@, "OUTPUT"@),
        !ci_eq(alias_table()[i].name@, "APPEND"@),
        !ci_eq(alias_table()[i].name@, "AGGREGATE"@),
        !ci_eq(alias_table()[i].name@, "AUTHORITY"@),
{
    lemma_upper_names();
    assert(forall|i: int| 0 <= i < alias_table().len() ==> !ci_eq(#[trigger] alias_table()[i].name@, "PATH"@)) by {
        reveal_strlit("PARTITION");
        reveal_strlit("PATH");
        reveal_strlit("PORT");
        reveal_with_fuel(key_lt, 10);
        reveal_with_fuel(upper_word, 12);
        lemma_no_alias_named("PATH"@, 41);
    }
    assert(forall|i: int| 0 <= i < alias_table().len() ==> !ci_eq(#[trigger] alias_table()[i].name@, "CLASS"@)) by {
        reveal_strlit("CDROM");
        reveal_strlit("CLASS");
        reveal_strlit("COMPUTERSYSTEM");
        reveal_with_fuel(key_lt, 10);
        reveal_with_fuel(upper_word, 12);
        lemma_no_alias_named("CLASS"@, 4);
    }
    assert(forall|i: int| 0 <= i < alias_table().len() ==> !ci_eq(#[trigger] alias_table()[i].name@, "CONTEXT"@)) by {
        reveal_strlit("COMPUTERSYSTEM");
        reveal_strlit("CONTEXT");
        reveal_strlit("CPU");
        reveal_with_fuel(key_lt, 10);
        reveal_with_fuel(upper_word, 12);
        lemma_no_alias_named("CONTEXT"@, 5);
    }
    assert(forall|i: int| 0 <= i < alias_table().len() ==> !ci_eq(#[trigger] alias_table()[i].name@, "QUIT"@)) by {
        reveal_strlit("QFE");
        reveal_strlit("QUIT");
        reveal_strlit("QUOTASETTING");
        reveal_with_fuel(key_lt, 10);
        reveal_with_fuel(upper_word, 12);
        lemma_no_alias_named("QUIT"@, 49);
    }
    assert(forall|i: int| 0 <= i < alias_table().len() ==> !ci_eq(#[trigger] alias_table()[i].name@, "EXIT"@)) by {
        reveal_strlit("ENVIRONMENT");
        reveal_strlit("EXIT");
        reveal_strlit("FSDIR");
        reveal_with_fuel(key_lt, 10);
        reveal_with_fuel(upper_word, 12);
        lemma_no_alias_named("EXIT"@, 16);
    }
    assert(forall|i: int| 0 <= i < alias_table().len() ==> !ci_eq(#[trigger] alias_table()[i].name@, "NAMESPACE"@)) by {
        reveal_strlit("MEMPHYSICAL");
        reveal_strlit("NAMESPACE");
        reveal_strlit("NETCLIENT");
        reveal_with_fuel(key_lt, 10);
        reveal_with_fuel(upper_word, 12);
        lemma_no_alias_named("NAMESPACE"@, 27);
    }
    assert(forall|i: int| 0 <= i < alias_table().len() ==> !ci_eq(#[trigger] alias_table()[i].name@, "ROLE"@)) by {
        reveal_strlit("REGISTRY");
        reveal_strlit("ROLE");
        reveal_strlit("SCSICONTROLLER");
        reveal_with_fuel(key_lt, 10);
        reveal_with_fuel(upper_word, 12);
        lemma_no_alias_named("ROLE"@, 56);
    }
    assert(forall|i: int| 0 <= i < alias_table().len() ==> !ci_eq(#[trigger] alias_table()[i].name@, "NODE"@)) by {
        reveal_strlit("NICCONFIG");
        reveal_strlit("NODE");
        reveal_strlit("NTDOMAIN");
        reveal_with_fuel(key_lt, 10);
        reveal_with_fuel(upper_word, 12);
        lemma_no_alias_named("NODE"@, 33);
    }
    assert(forall|i: int| 0 <= i < alias_table().len() ==> !ci_eq(#[trigger] alias_table()[i].name@, "IMPLEVEL"@)) by {
        reveal_strlit("IDECONTROLLER");
        reveal_strlit("IMPLEVEL");
        reveal_strlit("IRQ");
        reveal_with_fuel(key_lt, 10);
        reveal_with_fuel(upper_word, 12);
        lemma_no_alias_named("IMPLEVEL"@, 19);
    }
    assert(forall|i: int| 0 <= i < alias_table().len() ==> !ci_eq(#[trigger] alias_table()[i].name@, "AUTHLEVEL"@)) by {
        reveal_strlit("ALIAS");
        reveal_strlit("AUTHLEVEL");
        reveal_strlit("BASEBOARD");
        reveal_with_fuel(key_lt, 10);
        reveal_with_fuel(upper_word, 12);
        lemma_no_alias_named("AUTHLEVEL"@, 0);
    }
    assert(forall|i: int| 0 <= i < alias_table().len() ==> !ci_eq(#[trigger] alias_table()[i].name@, "LOCALE"@)) by {
        reveal_strlit("LOADORDER");
        reveal_strlit("LOCALE");
        reveal_strlit("LOGICALDISK");
        reveal_with_fuel(key_lt, 10);
        reveal_with_fuel(upper_word, 12);
        lemma_no_alias_named("LOCALE"@, 22);
    }
    assert(forall|i: int| 0 <= i < alias_table().len() ==> !ci_eq(#[trigger] alias_table()[i].name@, "PRIVILEGES"@)) by {
        reveal_strlit("PRINTJOB");
        reveal_strlit("PRIVILEGES");
        reveal_strlit("PROCESS");
        reveal_with_fuel(key_lt, 10);
        reveal_with_fuel(upper_word, 12);
        lemma_no_alias_named("PRIVILEGES"@, 46);
    }
    assert(forall|i: int| 0 <= i < alias_table().len() ==> !ci_eq(#[trigger] alias_table()[i].name@, "TRACE"@)) by {
        reveal_strlit("TIMEZONE");
        reveal_strlit("TRACE");
        reveal_strlit("UPS");
        reveal_with_fuel(key_lt, 10);
        reveal_with_fuel(upper_word, 12);
        lemma_no_alias_named("TRACE"@, 73);
    }
    assert(forall|i: int| 0 <= i < alias_table().len() ==> !ci_eq(#[trigger] alias_table()[i].name@, "RECORD"@)) by {
        reveal_strlit("RDTOGGLE");
        reveal_strlit("RECORD");
        reveal_strlit("RECOVEROS");
        reveal_with_fuel(key_lt, 10);
        reveal_with_fuel(upper_word, 12);
        lemma_no_alias_named("RECORD"@, 54);
    }
    assert(forall|i: int| 0 <= i < alias_table().len() ==> !ci_eq(#[trigger] alias_table()[i].name@, "INTERACTIVE"@)) by {
        reveal_strlit("IDECONTROLLER");
        reveal_strlit("INTERACTIVE");
        reveal_strlit("IRQ");
        reveal_with_fuel(key_lt, 10);
        reveal_with_fuel(upper_word, 12);
        lemma_no_alias_named("INTERACTIVE"@, 19);
    }
    assert(forall|i: int| 0 <= i < alias_table().len() ==> !ci_eq(#[trigger] alias_table()[i].name@, "FAILFAST"@)) by {
        reveal_strlit("ENVIRONMENT");
        reveal_strlit("FAILFAST");
        reveal_strlit("FSDIR");
        reveal_with_fuel(key_lt, 10);
        reveal_with_fuel(upper_word, 12);
        lemma_no_alias_named("FAILFAST"@, 16);
    }
    assert(forall|i: int| 0 <= i < alias_table().len() ==> !ci_eq(#[trigger] alias_table()[i].name@, "USER"@)) by {
        reveal_strlit("UPS");
        reveal_strlit("USER");
        reveal_strlit("USERACCOUNT");
        reveal_with_fuel(key_lt, 10);
        reveal_with_fuel(upper_word, 12);
        lemma_no_alias_named("USER"@, 74);
    }
    assert(forall|i: int| 0 <= i < alias_table().len() ==> !ci_eq(#[trigger] alias_table()[i].name@, "PASSWORD"@)) by {
        reveal_strlit("PARTITION");
        reveal_strlit("PASSWORD");
        reveal_strlit("PORT");
        reveal_with_fuel(key_lt, 10);
        reveal_with_fuel(upper_word, 12);
        lemma_no_alias_named("PASSWORD"@, 41);
    }
    assert(forall|i: int| 0 <= i < alias_table().len() ==> !ci_eq(#[trigger] alias_table()[i].name@, "OUTPUT"@)) by {
        reveal_strlit("OS");
        reveal_strlit("OUTPUT");
        reveal_strlit("PAGEFILE");
        reveal_with_fuel(key_lt, 10);
        reveal_with_fuel(upper_word, 12);
        lemma_no_alias_named("OUTPUT"@, 38);
    }
    assert(forall|i: int| 0 <= i < alias_table().len() ==> !ci_eq(#[trigger] alias_table()[i].name@, "APPEND"@)) by {
        reveal_strlit("ALIAS");
        reveal_strlit("APPEND");
        reveal_strlit("BASEBOARD");
        reveal_with_fuel(key_lt, 10);
        reveal_with_fuel(upper_word, 12);
        lemma_no_alias_named("APPEND"@, 0);
    }
    assert(forall|i: int| 0 <= i < alias_table().len() ==> !ci_eq(#[trigger] alias_table()[i].name@, "AGGREGATE"@)) by {
        reveal_strlit("AGGREGATE");
        reveal_strlit("ALIAS");
        reveal_with_fuel(key_lt, 10);
        reveal_with_fuel(upper_word, 12);
        lemma_no_alias_named("AGGREGATE"@, -1);
    }
    assert(forall|i: int| 0 <= i < alias_table().len() ==> !ci_eq(#[trigger] alias_table()[i].name@, "AUTHORITY"@)) by {
        reveal_strlit("ALIAS");
        reveal_strlit("AUTHORITY");
        reveal_strlit("BASEBOARD");
        reveal_with_fuel(key_lt, 10);
        reveal_with_fuel(upper_word, 12);
        lemma_no_alias_named("AUTHORITY"@, 0);
    }
}

/// Every alias is found by its own name in any ASCII case, and none of them is PATH or CLASS.
pub proof fn law_alias_found_by_name(i: int, spelling: Seq<char>)
    requires
        0 <= i < alias_table().len(),
        ci_eq(spelling, alias_table()[i].name@),
    ensures
        find_spec(spelling) == Some(alias_table()[i]),
        !ci_eq(spelling, "path"@),
        !ci_eq(spelling, "class"@),
{
    lemma_found_from(i, 0);
    law_find_ignores_case(spelling, alias_table()[i].name@);
    law_alias_names_are_not_keywords(i);
    reveal_strlit("path");
    reveal_strlit("class");
    reveal_strlit("PATH");
    reveal_strlit("CLASS");
    assert(lower("PATH"@) =~= lower("path"@));
    assert(lower("CLASS"@) =~= lower("class"@));
}

/// A WMI identifier: letters, digits and underscores.
pub open spec fn wmi_identifier(s: Seq<char>) -> bool
    decreases s.len(),
{
    s.len() == 0 || ((('a' <= s[0] && s[0] <= 'z') || ('A' <= s[0] && s[0] <= 'Z') || ('0' <= s[0]
        && s[0] <= '9') || s[0] == '_') && wmi_identifier(s.drop_first()))
}

/// An alias names a class by a WMI identifier, in a namespace under `root\`, and has a
/// description.
pub open spec fn well_formed_alias(a: Alias) -> bool {
    &&& a.class@.len() > 0
    &&& wmi_identifier(a.class@)
    &&& a.namespace@.len() >= 5
    &&& a.namespace@.take(5) =~= "root\\"@
    &&& a.description@.len() > 0
}

proof fn lemma_well_formed_aliases_0()
    ensures
        forall|i: int| 0 <= i < 10 ==> #[trigger] well_formed_alias(alias_table()[i]),
{
    reveal_with_fuel(wmi_identifier, 40);
    reveal_strlit("root\\");
    reveal_strlit("MSFT_CliAlias");
    reveal_strlit("Access to the aliases available on the local system");
    reveal_strlit("root\\cli");
    reveal_strlit("Win32_BaseBoard");
    reveal_strlit("Base board (also known as a motherboard or system board) management.");
    reveal_strlit("root\\cimv2");
    reveal_strlit("Win32_BIOS");
    reveal_strlit("Basic input/output services (BIOS) management.");
    reveal_strlit("Win32_BootConfiguration");
    reveal_strlit("Boot configuration management.");
    reveal_strlit("Win32_CDROMDrive");
    reveal_strlit("CD-ROM management.");
    reveal_strlit("Win32_ComputerSystem");
    reveal_strlit("Computer system management.");
    reveal_strlit("Win32_Processor");
    reveal_strlit("CPU management.");
    reveal_strlit("Win32_ComputerSystemProduct");
    reveal_strlit("Computer system product information from SMBIOS.");
    reveal_strlit("CIM_DataFile");
    reveal_strlit("DataFile Management.");
    reveal_strlit("Win32_DCOMApplication");
    reveal_strlit("DCOM Application management.");
    assert(well_formed_alias(alias_table()[0]));
    assert(well_formed_alias(alias_table()[1]));
    assert(well_formed_alias(alias_table()[2]));
    assert(well_formed_alias(alias_table()[3]));
    assert(well_formed_alias(alias_table()[4]));
    assert(well_formed_alias(alias_table()[5]));
    assert(well_formed_alias(alias_table()[6]));
    assert(well_formed_alias(alias_table()[7]));
    assert(well_formed_alias(alias_table()[8]));
    assert(well_formed_alias(alias_table()[9]));
}

proof fn lemma_well_formed_aliases_10()
    ensures
        forall|i: int| 10 <= i < 20 ==> #[trigger] well_formed_alias(alias_table()[i]),
{
    reveal_with_fuel(wmi_identifier, 40);
    reveal_strlit("root\\");
    reveal_strlit("Win32_Desktop");
    reveal_strlit("User's Desktop management.");
    reveal_strlit("root\\cimv2");
    reveal_strlit("Win32_DesktopMonitor");
    reveal_strlit("Desktop Monitor management.");
    reveal_strlit("Win32_DeviceMemoryAddress");
    reveal_strlit("Device memory addresses management.");
    reveal_strlit("Win32_DiskDrive");
    reveal_strlit("Physical disk drive management.");
    reveal_strlit("Win32_DiskQuota");
    reveal_strlit("Disk space usage for NTFS volumes.");
    reveal_strlit("Win32_DMAChannel");
    reveal_strlit("Direct memory access (DMA) channel management.");
    reveal_strlit("Win32_Environment");
    reveal_strlit("System environment settings management.");
    reveal_strlit("Win32_Directory");
    reveal_strlit("Filesystem directory entry management.");
    reveal_strlit("Win32_Group");
    reveal_strlit("Group account management.");
    reveal_strlit("Win32_IDEController");
    reveal_strlit("IDE Controller management.");
    assert(well_formed_alias(alias_table()[10]));
    assert(well_formed_alias(alias_table()[11]));
    assert(well_formed_alias(alias_table()[12]));
    assert(well_formed_alias(alias_table()[13]));
    assert(well_formed_alias(alias_table()[14]));
    assert(well_formed_alias(alias_table()[15]));
    assert(well_formed_alias(alias_table()[16]));
    assert(well_formed_alias(alias_table()[17]));
    assert(well_formed_alias(alias_table()[18]));
    assert(well_formed_alias(alias_table()[19]));
}

proof fn lemma_well_formed_aliases_20()
    ensures
        forall|i: int| 20 <= i < 30 ==> #[trigger] well_formed_alias(alias_table()[i]),
{
    reveal_with_fuel(wmi_identifier, 40);
    reveal_strlit("root\\");
    reveal_strlit("Win32_IRQResource");
    reveal_strlit("Interrupt request line (IRQ) management.");
    reveal_strlit("root\\cimv2");
    reveal_strlit("Win32_ScheduledJob");
    reveal_strlit("Provides access to jobs scheduled using the schedule service.");
    reveal_strlit("Win32_LoadOrderGroup");
    reveal_strlit("Management of system services that define execution dependencies.");
    reveal_strlit("Win32_LogicalDisk");
    reveal_strlit("Local storage device management.");
    reveal_strlit("Win32_LogonSession");
    reveal_strlit("LOGON Sessions.");
    reveal_strlit("Win32_CacheMemory");
    reveal_strlit("Cache memory management.");
    reveal_strlit("Win32_PhysicalMemory");
    reveal_strlit("Memory chip information.");
    reveal_strlit("Win32_PhysicalMemoryArray");
    reveal_strlit("Computer system's physical memory management.");
    reveal_strlit("Win32_NetworkClient");
    reveal_strlit("Network Client management.");
    reveal_strlit("Win32_NetworkLoginProfile");
    reveal_strlit("Network login information (of a particular user) management.");
    assert(well_formed_alias(alias_table()[20]));
    assert(well_formed_alias(alias_table()[21]));
    assert(well_formed_alias(alias_table()[22]));
    assert(well_formed_alias(alias_table()[23]));
    assert(well_formed_alias(alias_table()[24]));
    assert(well_formed_alias(alias_table()[25]));
    assert(well_formed_alias(alias_table()[26]));
    assert(well_formed_alias(alias_table()[27]));
    assert(well_formed_alias(alias_table()[28]));
    assert(well_formed_alias(alias_table()[29]));
}

proof fn lemma_well_formed_aliases_30()
    ensures
        forall|i: int| 30 <= i < 40 ==> #[trigger] well_formed_alias(alias_table()[i]),
{
    reveal_with_fuel(wmi_identifier, 40);
    reveal_strlit("root\\");
    reveal_strlit("Win32_NetworkProtocol");
    reveal_strlit("Protocols (and their network characteristics) management.");
    reveal_strlit("root\\cimv2");
    reveal_strlit("Win32_NetworkConnection");
    reveal_strlit("Active network connection management.");
    reveal_strlit("Win32_NetworkAdapter");
    reveal_strlit("Network Interface Controller (NIC) management.");
    reveal_strlit("Win32_NetworkAdapterConfiguration");
    reveal_strlit("Network adapter management.");
    reveal_strlit("Win32_NTDomain");
    reveal_strlit("NT Domain management.");
    reveal_strlit("Win32_NTLogEvent");
    reveal_strlit("Entries in the NT Event Log.");
    reveal_strlit("Win32_NTEventlogFile");
    reveal_strlit("NT eventlog file management.");
    reveal_strlit("Win32_OnBoardDevice");
    reveal_strlit("Management of common adapter devices built into the motherboard (system board).");
    reveal_strlit("Win32_OperatingSystem");
    reveal_strlit("Installed Operating System/s management.");
    reveal_strlit("Win32_PageFileUsage");
    reveal_strlit("Virtual memory file swapping management.");
    assert(well_formed_alias(alias_table()[30]));
    assert(well_formed_alias(alias_table()[31]));
    assert(well_formed_alias(alias_table()[32]));
    assert(well_formed_alias(alias_table()[33]));
    assert(well_formed_alias(alias_table()[34]));
    assert(well_formed_alias(alias_table()[35]));
    assert(well_formed_alias(alias_table()[36]));
    assert(well_formed_alias(alias_table()[37]));
    assert(well_formed_alias(alias_table()[38]));
    assert(well_formed_alias(alias_table()[39]));
}

proof fn lemma_well_formed_aliases_40()
    ensures
        forall|i: int| 40 <= i < 50 ==> #[trigger] well_formed_alias(alias_table()[i]),
{
    reveal_with_fuel(wmi_identifier, 40);
    reveal_strlit("root\\");
    reveal_strlit("Win32_PageFileSetting");
    reveal_strlit("Page file settings management.");
    reveal_strlit("root\\cimv2");
    reveal_strlit("Win32_DiskPartition");
    reveal_strlit("Management of partitioned areas of a physical disk.");
    reveal_strlit("Win32_PortResource");
    reveal_strlit("I/O port management.");
    reveal_strlit("Win32_PortConnector");
    reveal_strlit("Physical connection ports management.");
    reveal_strlit("Win32_Printer");
    reveal_strlit("Printer device management.");
    reveal_strlit("Win32_PrinterConfiguration");
    reveal_strlit("Printer device configuration management.");
    reveal_strlit("Win32_PrintJob");
    reveal_strlit("Print job management.");
    reveal_strlit("Win32_Process");
    reveal_strlit("Process management.");
    reveal_strlit("Win32_Product");
    reveal_strlit("Installation package task management.");
    reveal_strlit("Win32_QuickFixEngineering");
    reveal_strlit("Quick Fix Engineering.");
    assert(well_formed_alias(alias_table()[40]));
    assert(well_formed_alias(alias_table()[41]));
    assert(well_formed_alias(alias_table()[42]));
    assert(well_formed_alias(alias_table()[43]));
    assert(well_formed_alias(alias_table()[44]));
    assert(well_formed_alias(alias_table()[45]));
    assert(well_formed_alias(alias_table()[46]));
    assert(well_formed_alias(alias_table()[47]));
    assert(well_formed_alias(alias_table()[48]));
    assert(well_formed_alias(alias_table()[49]));
}

proof fn lemma_well_formed_aliases_50()
    ensures
        forall|i: int| 50 <= i < 60 ==> #[trigger] well_formed_alias(alias_table()[i]),
{
    reveal_with_fuel(wmi_identifier, 40);
    reveal_strlit("root\\");
    reveal_strlit("Win32_QuotaSetting");
    reveal_strlit("Setting information for disk quotas on a volume.");
    reveal_strlit("root\\cimv2");
    reveal_strlit("Win32_TSAccount");
    reveal_strlit("Remote Desktop connection permission management.");
    reveal_strlit("root\\cimv2\\terminalservices");
    reveal_strlit("Win32_TSNetworkAdapterSetting");
    reveal_strlit("Remote Desktop connection management on a specific network adapter.");
    reveal_strlit("Win32_TSPermissionsSetting");
    reveal_strlit("Permissions to a specific Remote Desktop connection.");
    reveal_strlit("Win32_TerminalServiceSetting");
    reveal_strlit("Turning Remote Desktop listener on or off remotely.");
    reveal_strlit("Win32_OSRecoveryConfiguration");
    reveal_strlit("Information that will be gathered from memory when the operating system fails.");
    reveal_strlit("StdRegProv");
    reveal_strlit("Computer system registry management.");
    reveal_strlit("root\\default");
    reveal_strlit("Win32_SCSIController");
    reveal_strlit("SCSI Controller management.");
    reveal_strlit("Win32_PerfRawData_PerfNet_Server");
    reveal_strlit("Server information management.");
    reveal_strlit("Win32_Service");
    reveal_strlit("Service application management.");
    assert(well_formed_alias(alias_table()[50]));
    assert(well_formed_alias(alias_table()[51]));
    assert(well_formed_alias(alias_table()[52]));
    assert(well_formed_alias(alias_table()[53]));
    assert(well_formed_alias(alias_table()[54]));
    assert(well_formed_alias(alias_table()[55]));
    assert(well_formed_alias(alias_table()[56]));
    assert(well_formed_alias(alias_table()[57]));
    assert(well_formed_alias(alias_table()[58]));
    assert(well_formed_alias(alias_table()[59]));
}

proof fn lemma_well_formed_aliases_60()
    ensures
        forall|i: int| 60 <= i < 70 ==> #[trigger] well_formed_alias(alias_table()[i]),
{
    reveal_with_fuel(wmi_identifier, 40);
    reveal_strlit("root\\");
    reveal_strlit("Win32_ShadowCopy");
    reveal_strlit("Shadow copy management.");
    reveal_strlit("root\\cimv2");
    reveal_strlit("Win32_ShadowStorage");
    reveal_strlit("Shadow copy storage area management.");
    reveal_strlit("Win32_Share");
    reveal_strlit("Shared resource management.");
    reveal_strlit("Win32_SoftwareElement");
    reveal_strlit("Management of the elements of a software product installed on a system.");
    reveal_strlit("Win32_SoftwareFeature");
    reveal_strlit("Management of software product subsets of SoftwareElement.");
    reveal_strlit("Win32_SoundDevice");
    reveal_strlit("Sound Device management.");
    reveal_strlit("Win32_StartupCommand");
    reveal_strlit("Management of commands that run automatically when users log onto the computer system.");
    reveal_strlit("Win32_SystemAccount");
    reveal_strlit("System account management.");
    reveal_strlit("Win32_SystemDriver");
    reveal_strlit("Management of the system driver for a base service.");
    reveal_strlit("Win32_SystemEnclosure");
    reveal_strlit("Physical system enclosure management.");
    assert(well_formed_alias(alias_table()[60]));
    assert(well_formed_alias(alias_table()[61]));
    assert(well_formed_alias(alias_table()[62]));
    assert(well_formed_alias(alias_table()[63]));
    assert(well_formed_alias(alias_table()[64]));
    assert(well_formed_alias(alias_table()[65]));
    assert(well_formed_alias(alias_table()[66]));
    assert(well_formed_alias(alias_table()[67]));
    assert(well_formed_alias(alias_table()[68]));
    assert(well_formed_alias(alias_table()[69]));
}

proof fn lemma_well_formed_aliases_70()
    ensures
        forall|i: int| 70 <= i < 80 ==> #[trigger] well_formed_alias(alias_table()[i]),
{
    reveal_with_fuel(wmi_identifier, 40);
    reveal_strlit("root\\");
    reveal_strlit("Win32_SystemSlot");
    reveal_strlit("Management of physical connection points including ports, slots and peripherals, and proprietary connections points.");
    reveal_strlit("root\\cimv2");
    reveal_strlit("Win32_TapeDrive");
    reveal_strlit("Tape drive management.");
    reveal_strlit("Win32_TemperatureProbe");
    reveal_strlit("Data management of a temperature sensor (electronic thermometer).");
    reveal_strlit("Win32_TimeZone");
    reveal_strlit("Time zone data management.");
    reveal_strlit("Win32_UninterruptiblePowerSupply");
    reveal_strlit("Uninterruptible power supply (UPS) management.");
    reveal_strlit("Win32_UserAccount");
    reveal_strlit("User account management.");
    reveal_strlit("Win32_VoltageProbe");
    reveal_strlit("Voltage sensor (electronic voltmeter) data management.");
    reveal_strlit("Win32_Volume");
    reveal_strlit("Local storage volume management.");
    reveal_strlit("Win32_VolumeQuotaSetting");
    reveal_strlit("Associates the disk quota setting with a specific disk volume.");
    reveal_strlit("Win32_VolumeUserQuota");
    reveal_strlit("Per user storage volume quota management.");
    assert(well_formed_alias(alias_table()[70]));
    assert(well_formed_alias(alias_table()[71]));
    assert(well_formed_alias(alias_table()[72]));
    assert(well_formed_alias(alias_table()[73]));
    assert(well_formed_alias(alias_table()[74]));
    assert(well_formed_alias(alias_table()[75]));
    assert(well_formed_alias(alias_table()[76]));
    assert(well_formed_alias(alias_table()[77]));
    assert(well_formed_alias(alias_table()[78]));
    assert(well_formed_alias(alias_table()[79]));
}

proof fn lemma_well_formed_aliases_80()
    ensures
        forall|i: int| 80 <= i < 81 ==> #[trigger] well_formed_alias(alias_table()[i]),
{
    reveal_with_fuel(wmi_identifier, 40);
    reveal_strlit("root\\");
    reveal_strlit("Win32_WMISetting");
    reveal_strlit("WMI service operational parameters management.");
    reveal_strlit("root\\cimv2");
    assert(well_formed_alias(alias_table()[80]));
}

/// Every alias of the table names its class by a WMI identifier, lives in a namespace under
/// `root\`, and has a description.
pub proof fn law_aliases_well_formed()
    ensures
        forall|i: int| 0 <= i < alias_table().len() ==> #[trigger] well_formed_alias(alias_table()[i]),
{
    lemma_well_formed_aliases_0();
    lemma_well_formed_aliases_10();
    lemma_well_formed_aliases_20();
    lemma_well_formed_aliases_30();
    lemma_well_formed_aliases_40();
    lemma_well_formed_aliases_50();
    lemma_well_formed_aliases_60();
    lemma_well_formed_aliases_70();
    lemma_well_formed_aliases_80();
}

/// Alias lookup ignores ASCII case: two spellings that are equal up to ASCII case find the
/// same alias, or both find none.
pub proof fn law_find_ignores_case(a: Seq<char>, b: Seq<char>)
    requires
        ci_eq(a, b),
    ensures
        find_spec(a) == find_spec(b),
{
    lemma_find_index_from_ignores_case(a, b, 0);
}

proof fn lemma_find_index_from_ignores_case(a: Seq<char>, b: Seq<char>, from: int)
    requires
        ci_eq(a, b),
    ensures
        find_index_from(a, from) == find_index_from(b, from),
    decreases alias_table().len() - from,
{
    if 0 <= from < alias_table().len() {
        lemma_find_index_from_ignores_case(a, b, from + 1);
    }
}

/// Looks an alias up by name, ignoring ASCII case.
pub fn find(name: &str) -> (r: Option<Alias>)
    ensures
        r == find_spec(name@),
{
    let wanted = chars_of(name);
    find_chars(&wanted)
}

/// Looks an alias up by the characters of its name, ignoring ASCII case.
pub fn find_chars(wanted: &Vec<char>) -> (r: Option<Alias>)
    ensures
        r == find_spec(wanted@),
{
    let table = aliases();
    let mut i: usize = 0;
    while i < table.len()
        invariant
            table@ == alias_table(),
            i <= table.len(),
            find_index_from(wanted@, 0) == find_index_from(wanted@, i as int),
        decreases table.len() - i,
    {
        let candidate = chars_of(table[i].name);
        if eq_ignore_case(&candidate, wanted) {
            return Some(table[i]);
        }
        i = i + 1;
    }
    None
}

/// The text of global help that precedes the alias list.
pub const GLOBAL_HELP_HEAD: &'static str = "WMIC is deprecated.\n\n[global switches] <command>\n\n\
The following global switches are available:\n\
/NAMESPACE           Path for the namespace the alias operate against.\n\
/ROLE                Path for the role containing the alias definitions.\n\
/NODE                Servers the alias will operate against.\n\
/IMPLEVEL            Client impersonation level.\n\
/AUTHLEVEL           Client authentication level.\n\
/LOCALE              Language id the client should use.\n\
/PRIVILEGES          Enable or disable all privileges.\n\
/TRACE               Outputs debugging information to stderr.\n\
/RECORD              Logs all input commands and output.\n\
/INTERACTIVE         Sets or resets the interactive mode.\n\
/FAILFAST            Sets or resets the FailFast mode.\n\
/USER                User to be used during the session.\n\
/PASSWORD            Password to be used for session login.\n\
/OUTPUT              Specifies the mode for output redirection.\n\
/APPEND              Specifies the mode for output redirection.\n\
/AGGREGATE           Sets or resets aggregate mode.\n\
/AUTHORITY           Specifies the <authority type> for the connection.\n\
/?[:<BRIEF|FULL>]    Usage information.\n\n\
For more information on a specific global switch, type: switch-name /?\n\n\n\
The following alias/es are available in the current role:\n";

/// The text of global help that follows the alias list.
pub const GLOBAL_HELP_TAIL: &'static str = "\nFor more information on a specific alias, type: alias /?\n\n\
CLASS     - Escapes to full WMI schema.\n\
PATH      - Escapes to full WMI object paths.\n\
CONTEXT   - Displays the state of all the global switches.\n\
QUIT/EXIT - Exits the program.\n\n\
For more information on CLASS/PATH/CONTEXT, type: (CLASS | PATH | CONTEXT) /?\n";

/// The line that global help gives an alias: its name padded to 25 characters, a dash and
/// its description (`format!("{:<25}- {}\n", name, description)`).
pub open spec fn help_line(alias: Alias) -> Seq<char> {
    pad_right(alias.name@, 25) + "- "@ + alias.description@ + "\n"@
}

/// The lines of global help for the first `n` aliases.
pub open spec fn help_lines(n: int) -> Seq<char>
    decreases n,
{
    if n <= 0 {
        Seq::empty()
    } else {
        help_lines(n - 1) + help_line(alias_table()[n - 1])
    }
}

/// Global help: the fixed head, one line per alias in table order, the fixed tail.
pub open spec fn global_help_text() -> Seq<char> {
    GLOBAL_HELP_HEAD@ + help_lines(alias_table().len() as int) + GLOBAL_HELP_TAIL@
}

proof fn lemma_help_lines_prefix(m: int, n: int)
    requires
        0 <= m <= n,
    ensures
        help_lines(m).len() <= help_lines(n).len(),
        help_lines(n).subrange(0, help_lines(m).len() as int) == help_lines(m),
    decreases n - m,
{
    if m < n {
        lemma_help_lines_prefix(m, n - 1);
        let a = help_lines(n - 1);
        assert(help_lines(n) == a + help_line(alias_table()[n - 1]));
        assert((a + help_line(alias_table()[n - 1])).subrange(0, help_lines(m).len() as int)
            =~= a.subrange(0, help_lines(m).len() as int));
    } else {
        assert(help_lines(n).subrange(0, help_lines(n).len() as int) =~= help_lines(n));
    }
}

/// Global help starts with its fixed head, and holds each alias's line, its name padded to 25
/// characters, a dash and its description, where the alias's turn in the table puts it.
pub proof fn law_global_help_lists_each_alias(i: int)
    requires
        0 <= i < alias_table().len(),
    ensures
        global_help_text().subrange(0, GLOBAL_HELP_HEAD@.len() as int) == GLOBAL_HELP_HEAD@,
        ({
            let start: int = (GLOBAL_HELP_HEAD@.len() + help_lines(i).len()) as int;
            let line = pad_right(alias_table()[i].name@, 25) + "- "@ + alias_table()[i].description@
                + "\n"@;
            &&& start + line.len() <= global_help_text().len()
            &&& global_help_text().subrange(start, start + line.len()) == line
        }),
{
    let n = alias_table().len() as int;
    let head = GLOBAL_HELP_HEAD@;
    let line = help_line(alias_table()[i]);
    lemma_help_lines_prefix(i + 1, n);
    let all = help_lines(n);
    let before = help_lines(i);
    let b: int = before.len() as int;
    let e: int = b + line.len();
    assert(help_lines(i + 1) == before + line);
    let text = global_help_text();
    assert(text == head + all + GLOBAL_HELP_TAIL@);
    assert(text.subrange(0, head.len() as int) =~= head);
    assert(all.subrange(0, e) == before + line);
    let start: int = head.len() as int + b;
    assert forall|k: int| 0 <= k < line.len() implies text[start + k] == line[k] by {
        assert(all.subrange(0, e)[b + k] == (before + line)[b + k]);
        assert(text[start + k] == all[b + k]);
    }
    assert(text.subrange(start, start + line.len()) =~= line);
}

/// Appends `s` padded with spaces to at least `width` characters.
pub fn push_padded(out: &mut Vec<char>, s: &Vec<char>, width: usize)
    ensures
        final(out)@ == old(out)@ + pad_right(s@, width as nat),
{
    extend(out, s);
    if s.len() < width {
        push_spaces(out, width - s.len());
    }
}

/// The global help text.
#[verifier::spinoff_prover]
pub fn global_help() -> (r: String)
    ensures
        r@ == global_help_text(),
{
    let table = aliases();
    let mut out = chars_of(GLOBAL_HELP_HEAD);
    let mut i: usize = 0;
    while i < table.len()
        invariant
            table@ == alias_table(),
            i <= table.len(),
            out@ == GLOBAL_HELP_HEAD@ + help_lines(i as int),
        decreases table.len() - i,
    {
        let alias = table[i];
        let name = chars_of(alias.name);
        push_padded(&mut out, &name, 25);
        extend_str(&mut out, "- ");
        extend_str(&mut out, alias.description);
        extend_str(&mut out, "\n");
        i = i + 1;
        assert(out@ =~= GLOBAL_HELP_HEAD@ + help_lines(i as int));
    }
    extend_str(&mut out, GLOBAL_HELP_TAIL);
    string_of(&out)
}

/// The part of alias help between the alias name's second mention and its class.
pub const ALIAS_HELP_USAGE: &'static str = " [WHERE <condition>] [LIST [BRIEF|FULL|INSTANCE|STATUS|SYSTEM] | GET <properties> [/VALUE|/ALL] | CALL <method> | SET <assignments> | CREATE <assignments> | DELETE] [/FORMAT:<format>]\n\nUnderlying WMI class: ";

/// Help for one alias: its name and description, the usage line, its class and namespace.
pub open spec fn alias_help_text(alias: Alias) -> Seq<char> {
    alias.name@ + " - "@ + alias.description@ + "\n\nHint: BNF for Alias usage.\n"@ + alias.name@
        + ALIAS_HELP_USAGE@ + alias.class@ + "\nNamespace: "@ + alias.namespace@ + "\n"@
}

/// Alias help starts with the alias's name, ` - ` and its description on a line of their own,
/// and ends with its class, then `Namespace: ` and its namespace on the last line.
pub proof fn law_alias_help_shows_the_alias(a: Alias)
    ensures
        ({
            let t = alias_help_text(a);
            let head = a.name@ + " - "@ + a.description@ + "\n"@;
            let tail = a.class@ + "\nNamespace: "@ + a.namespace@ + "\n"@;
            &&& head.len() <= t.len()
            &&& t.take(head.len() as int) == head
            &&& tail.len() <= t.len()
            &&& t.skip(t.len() - tail.len()) == tail
        }),
{
    reveal_strlit("\n\nHint: BNF for Alias usage.\n");
    reveal_strlit("\n");
    let t = alias_help_text(a);
    let head = a.name@ + " - "@ + a.description@ + "\n"@;
    let tail = a.class@ + "\nNamespace: "@ + a.namespace@ + "\n"@;
    let hint = "\n\nHint: BNF for Alias usage.\n"@;
    let first = a.name@ + " - "@ + a.description@;
    let mid = hint + a.name@ + ALIAS_HELP_USAGE@;
    assert(t =~= first + mid + tail);
    assert(head =~= first + hint.take(1));
    assert(t.take(head.len() as int) =~= head);
    assert(t.skip(t.len() - tail.len()) =~= tail);
}

/// The help text of one alias.
pub fn alias_help(alias: &Alias) -> (r: String)
    ensures
        r@ == alias_help_text(*alias),
{
    let mut out = chars_of(alias.name);
    extend_str(&mut out, " - ");
    extend_str(&mut out, alias.description);
    extend_str(&mut out, "\n\nHint: BNF for Alias usage.\n");
    extend_str(&mut out, alias.name);
    extend_str(&mut out, ALIAS_HELP_USAGE);
    extend_str(&mut out, alias.class);
    extend_str(&mut out, "\nNamespace: ");
    extend_str(&mut out, alias.namespace);
    extend_str(&mut out, "\n");
    string_of(&out)
}

} // verus!
