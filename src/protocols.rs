//! Labels that classify a tracked address:port pair: transport protocol,
//! application protocol and direction of the traffic.

use vstd::prelude::*;

verus! {

/// Transport layer protocol of a flow.
#[derive(Clone, Copy, Debug, PartialEq, Eq, Structural)]
pub enum TransProtocol {
    TCP,
    UDP,
    Other,
}

impl TransProtocol {
    /// The label's text.
    pub open spec fn text(self) -> Seq<char> {
        match self {
            TransProtocol::TCP => seq!['T', 'C', 'P'],
            TransProtocol::UDP => seq!['U', 'D', 'P'],
            TransProtocol::Other => seq!['O', 't', 'h', 'e', 'r'],
        }
    }

    /// The label's text, as a string slice.
    pub fn label(&self) -> (r: &'static str)
        ensures
            r@ == self.text(),
    {
        let r = match self {
            TransProtocol::TCP => {
                proof {
                    reveal_strlit("TCP");
                }
                "TCP"
            },
            TransProtocol::UDP => {
                proof {
                    reveal_strlit("UDP");
                }
                "UDP"
            },
            TransProtocol::Other => {
                proof {
                    reveal_strlit("Other");
                }
                "Other"
            },
        };
        assert(r@ =~= self.text());
        r
    }
}

/// Application layer protocol of a flow; `Other` is the label of traffic that
/// no known protocol matched.
#[derive(Clone, Copy, Debug, PartialEq, Eq, Structural)]
pub enum AppProtocol {
    FTP,
    SSH,
    Telnet,
    SMTP,
    TACACS,
    DNS,
    DHCP,
    TFTP,
    HTTP,
    POP,
    NTP,
    NetBIOS,
    POP3S,
    IMAP,
    SNMP,
    BGP,
    LDAP,
    HTTPS,
    LDAPS,
    FTPS,
    IMAPS,
    Other,
}

impl AppProtocol {
    /// The label's text.
    pub open spec fn text(self) -> Seq<char> {
        match self {
            AppProtocol::FTP => seq!['F', 'T', 'P'],
            AppProtocol::SSH => seq!['S', 'S', 'H'],
            AppProtocol::Telnet => seq!['T', 'e', 'l', 'n', 'e', 't'],
            AppProtocol::SMTP => seq!['S', 'M', 'T', 'P'],
            AppProtocol::TACACS => seq!['T', 'A', 'C', 'A', 'C', 'S'],
            AppProtocol::DNS => seq!['D', 'N', 'S'],
            AppProtocol::DHCP => seq!['D', 'H', 'C', 'P'],
            AppProtocol::TFTP => seq!['T', 'F', 'T', 'P'],
            AppProtocol::HTTP => seq!['H', 'T', 'T', 'P'],
            AppProtocol::POP => seq!['P', 'O', 'P'],
            AppProtocol::NTP => seq!['N', 'T', 'P'],
            AppProtocol::NetBIOS => seq!['N', 'e', 't', 'B', 'I', 'O', 'S'],
            AppProtocol::POP3S => seq!['P', 'O', 'P', '3', 'S'],
            AppProtocol::IMAP => seq!['I', 'M', 'A', 'P'],
            AppProtocol::SNMP => seq!['S', 'N', 'M', 'P'],
            AppProtocol::BGP => seq!['B', 'G', 'P'],
            AppProtocol::LDAP => seq!['L', 'D', 'A', 'P'],
            AppProtocol::HTTPS => seq!['H', 'T', 'T', 'P', 'S'],
            AppProtocol::LDAPS => seq!['L', 'D', 'A', 'P', 'S'],
            AppProtocol::FTPS => seq!['F', 'T', 'P', 'S'],
            AppProtocol::IMAPS => seq!['I', 'M', 'A', 'P', 'S'],
            AppProtocol::Other => seq!['O', 't', 'h', 'e', 'r'],
        }
    }

    /// The label's text, as a string slice.
    pub fn label(&self) -> (r: &'static str)
        ensures
            r@ == self.text(),
    {
        let r = match self {
            AppProtocol::FTP => {
                proof {
                    reveal_strlit("FTP");
                }
                "FTP"
            },
            AppProtocol::SSH => {
                proof {
                    reveal_strlit("SSH");
                }
                "SSH"
            },
            AppProtocol::Telnet => {
                proof {
                    reveal_strlit("Telnet");
                }
                "Telnet"
            },
            AppProtocol::SMTP => {
                proof {
                    reveal_strlit("SMTP");
                }
                "SMTP"
            },
            AppProtocol::TACACS => {
                proof {
                    reveal_strlit("TACACS");
                }
                "TACACS"
            },
            AppProtocol::DNS => {
                proof {
                    reveal_strlit("DNS");
                }
                "DNS"
            },
            AppProtocol::DHCP => {
                proof {
                    reveal_strlit("DHCP");
                }
                "DHCP"
            },
            AppProtocol::TFTP => {
                proof {
                    reveal_strlit("TFTP");
                }
                "TFTP"
            },
            AppProtocol::HTTP => {
                proof {
                    reveal_strlit("HTTP");
                }
                "HTTP"
            },
            AppProtocol::POP => {
                proof {
                    reveal_strlit("POP");
                }
                "POP"
            },
            AppProtocol::NTP => {
                proof {
                    reveal_strlit("NTP");
                }
                "NTP"
            },
            AppProtocol::NetBIOS => {
                proof {
                    reveal_strlit("NetBIOS");
                }
                "NetBIOS"
            },
            AppProtocol::POP3S => {
                proof {
                    reveal_strlit("POP3S");
                }
                "POP3S"
            },
            AppProtocol::IMAP => {
                proof {
                    reveal_strlit("IMAP");
                }
                "IMAP"
            },
            AppProtocol::SNMP => {
                proof {
                    reveal_strlit("SNMP");
                }
                "SNMP"
            },
            AppProtocol::BGP => {
                proof {
                    reveal_strlit("BGP");
                }
                "BGP"
            },
            AppProtocol::LDAP => {
                proof {
                    reveal_strlit("LDAP");
                }
                "LDAP"
            },
            AppProtocol::HTTPS => {
                proof {
                    reveal_strlit("HTTPS");
                }
                "HTTPS"
            },
            AppProtocol::LDAPS => {
                proof {
                    reveal_strlit("LDAPS");
                }
                "LDAPS"
            },
            AppProtocol::FTPS => {
                proof {
                    reveal_strlit("FTPS");
                }
                "FTPS"
            },
            AppProtocol::IMAPS => {
                proof {
                    reveal_strlit("IMAPS");
                }
                "IMAPS"
            },
            AppProtocol::Other => {
                proof {
                    reveal_strlit("Other");
                }
                "Other"
            },
        };
        assert(r@ =~= self.text());
        r
    }
}

/// Direction of a flow relative to the host whose traffic is captured.
#[derive(Clone, Copy, Debug, PartialEq, Eq, Structural)]
pub enum TrafficType {
    Incoming,
    Outgoing,
    Multicast,
    Broadcast,
    Other,
}

} // verus!
