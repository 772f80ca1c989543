use vstd::prelude::*;

use crate::error::Error;

verus! {

/// The kind of a tracked event, as written in the `e` field of a payload.
#[derive(Debug, Copy, Clone, PartialEq, Eq, Structural)]
pub enum EventType {
    /// A structured event (`se`)
    StructuredEvent,
    /// A self-describing event (`ue`)
    SelfDescribingEvent,
}

/// One event record bound for the collector.
///
/// The delivery core reads two fields: `eid`, the event's unique id (the
/// 128 bits of a UUID), and `stm`, the sent-at timestamp that is stamped
/// anew before each send attempt. The self-describing parts `ue_pr` and
/// `co` hold their JSON text, which is how they travel on the wire.
#[derive(Debug, Clone)]
pub struct Payload {
    pub p: String,
    pub tv: String,
    pub eid: u128,
    pub dtm: String,
    pub stm: String,
    pub ttm: Option<String>,
    pub e: Option<EventType>,
    pub aid: String,
    pub ue_pr: Option<String>,
    pub co: Option<String>,
    pub se_ca: Option<String>,
    pub se_ac: Option<String>,
    pub se_la: Option<String>,
    pub se_pr: Option<String>,
    pub se_va: Option<String>,
}

impl Payload {
    /// The same payload with its sent-at timestamp replaced.
    pub open spec fn with_stm(self, stm: String) -> Payload {
        Payload { stm, ..self }
    }

    /// A builder with no field set.
    pub fn builder() -> (r: PayloadBuilder)
        ensures
            r == PayloadBuilder::empty(),
    {
        PayloadBuilder {
            p: None,
            tv: None,
            eid: None,
            dtm: None,
            stm: None,
            ttm: None,
            e: None,
            aid: None,
            ue_pr: None,
            co: None,
            se_ca: None,
            se_ac: None,
            se_la: None,
            se_pr: None,
            se_va: None,
        }
    }
}

/// Collects the fields of a [`Payload`]. `p`, `tv`, `eid`, `dtm` and `aid`
/// are required; the others default to unset (`stm` to empty, as it is
/// stamped when the payload is sent).
#[derive(Debug, Clone)]
pub struct PayloadBuilder {
    pub p: Option<String>,
    pub tv: Option<String>,
    pub eid: Option<u128>,
    pub dtm: Option<String>,
    pub stm: Option<String>,
    pub ttm: Option<String>,
    pub e: Option<EventType>,
    pub aid: Option<String>,
    pub ue_pr: Option<String>,
    pub co: Option<String>,
    pub se_ca: Option<String>,
    pub se_ac: Option<String>,
    pub se_la: Option<String>,
    pub se_pr: Option<String>,
    pub se_va: Option<String>,
}

/// The message of the error for a required field left unset.
pub open spec fn missing_field_message(name: Seq<char>) -> Seq<char> {
    "Field not initialized: "@ + name
}

impl PayloadBuilder {
    /// The builder with no field set.
    pub open spec fn empty() -> PayloadBuilder {
        PayloadBuilder {
            p: None,
            tv: None,
            eid: None,
            dtm: None,
            stm: None,
            ttm: None,
            e: None,
            aid: None,
            ue_pr: None,
            co: None,
            se_ca: None,
            se_ac: None,
            se_la: None,
            se_pr: None,
            se_va: None,
        }
    }

    /// The first required field left unset, in declaration order.
    pub open spec fn first_missing(self) -> Option<Seq<char>> {
        if self.p is None {
            Some("p"@)
        } else if self.tv is None {
            Some("tv"@)
        } else if self.eid is None {
            Some("eid"@)
        } else if self.dtm is None {
            Some("dtm"@)
        } else if self.aid is None {
            Some("aid"@)
        } else {
            None
        }
    }

    pub fn p(self, p: String) -> (r: PayloadBuilder)
        ensures
            r == (PayloadBuilder { p: Some(p), ..self }),
    {
        PayloadBuilder { p: Some(p), ..self }
    }

    pub fn tv(self, tv: String) -> (r: PayloadBuilder)
        ensures
            r == (PayloadBuilder { tv: Some(tv), ..self }),
    {
        PayloadBuilder { tv: Some(tv), ..self }
    }

    pub fn eid(self, eid: u128) -> (r: PayloadBuilder)
        ensures
            r == (PayloadBuilder { eid: Some(eid), ..self }),
    {
        PayloadBuilder { eid: Some(eid), ..self }
    }

    pub fn dtm(self, dtm: String) -> (r: PayloadBuilder)
        ensures
            r == (PayloadBuilder { dtm: Some(dtm), ..self }),
    {
        PayloadBuilder { dtm: Some(dtm), ..self }
    }

    pub fn stm(self, stm: String) -> (r: PayloadBuilder)
        ensures
            r == (PayloadBuilder { stm: Some(stm), ..self }),
    {
        PayloadBuilder { stm: Some(stm), ..self }
    }

    pub fn ttm(self, ttm: String) -> (r: PayloadBuilder)
        ensures
            r == (PayloadBuilder { ttm: Some(ttm), ..self }),
    {
        PayloadBuilder { ttm: Some(ttm), ..self }
    }

    pub fn e(self, e: EventType) -> (r: PayloadBuilder)
        ensures
            r == (PayloadBuilder { e: Some(e), ..self }),
    {
        PayloadBuilder { e: Some(e), ..self }
    }

    pub fn aid(self, aid: String) -> (r: PayloadBuilder)
        ensures
            r == (PayloadBuilder { aid: Some(aid), ..self }),
    {
        PayloadBuilder { aid: Some(aid), ..self }
    }

    /// Builds the payload; fails on the first required field left unset.
    pub fn finalise_payload(self) -> (r: Result<Payload, Error>)
        ensures
            r is Ok <==> self.first_missing() is None,
            r matches Ok(pl) ==> pl == (Payload {
                p: self.p->0,
                tv: self.tv->0,
                eid: self.eid->0,
                dtm: self.dtm->0,
                stm: match self.stm {
                    Some(s) => s,
                    None => pl.stm,
                },
                ttm: self.ttm,
                e: self.e,
                aid: self.aid->0,
                ue_pr: self.ue_pr,
                co: self.co,
                se_ca: self.se_ca,
                se_ac: self.se_ac,
                se_la: self.se_la,
                se_pr: self.se_pr,
                se_va: self.se_va,
            }) && (self.stm is None ==> pl.stm@.len() == 0),
            r matches Err(e) ==> e matches Error::BuilderError(m) && self.first_missing() matches Some(
                name,
            ) && m@ == missing_field_message(name),
    {
        let p = match self.p {
            Some(p) => p,
            None => return Err(missing_field("p")),
        };
        let tv = match self.tv {
            Some(tv) => tv,
            None => return Err(missing_field("tv")),
        };
        let eid = match self.eid {
            Some(eid) => eid,
            None => return Err(missing_field("eid")),
        };
        let dtm = match self.dtm {
            Some(dtm) => dtm,
            None => return Err(missing_field("dtm")),
        };
        let aid = match self.aid {
            Some(aid) => aid,
            None => return Err(missing_field("aid")),
        };
        let stm = match self.stm {
            Some(stm) => stm,
            None => String::new(),
        };
        Ok(Payload {
            p,
            tv,
            eid,
            dtm,
            stm,
            ttm: self.ttm,
            e: self.e,
            aid,
            ue_pr: self.ue_pr,
            co: self.co,
            se_ca: self.se_ca,
            se_ac: self.se_ac,
            se_la: self.se_la,
            se_pr: self.se_pr,
            se_va: self.se_va,
        })
    }
}

fn missing_field(name: &str) -> (e: Error)
    ensures
        e matches Error::BuilderError(m) && m@ == missing_field_message(name@),
{
    let mut m = "Field not initialized: ".to_owned();
    m.append(name);
    Error::BuilderError(m)
}

} // verus!
