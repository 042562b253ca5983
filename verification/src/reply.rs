//! Numeric replies: every code the RFC names as its own variant, and three
//! bucket variants carrying any other in-range code. Codes run 001-099 for
//! client-server connections, 200-399 for command responses, and 400-599
//! for errors; 100-199 and everything from 600 up are refused.
use crate::host::{digit_char, digit_val, is_digit_char};
use crate::params::{spec_render_params, MessageParams};
use crate::text::{from_chars, push_range, subvec, to_chars};
use crate::ParseError;
use vstd::prelude::*;

verus! {

/// A numeric reply code's meaning.
#[derive(PartialEq, Eq, Structural, Debug, Clone, Copy)]
pub enum ReplyType {
    PrvWelcome,
    PrvYourHost,
    PrvCreated,
    PrvMyInfo,
    PrvBounce,
    PrvUnknown(u16),
    RplUserHost,
    RplIsOn,
    RplAway,
    RplUnAway,
    RplNowAway,
    RplWhoIsUser,
    RplWhoIsServer,
    RplWhoIsOperator,
    RplWhoIsIdle,
    RplEndOfWhoIs,
    RplWhoIsChannels,
    RplWhoWasUser,
    RplEndOfWhoWas,
    RplListStart,
    RplList,
    RplListEnd,
    RplUniqOpIs,
    RplChannelModeIs,
    RplNoTopic,
    RplTopic,
    RplInviting,
    RplSummoning,
    RplInviteList,
    RplEndOfInviteList,
    RplExceptList,
    RplEndOfExceptList,
    RplVersion,
    RplWhoReply,
    RplEndOfWho,
    RplNamReply,
    RplEndOfNames,
    RplLinks,
    RplEndOfLinks,
    RplBanList,
    RplEndOfBanList,
    RplInfo,
    RplEndOfInfo,
    RplMotdStart,
    RplMotd,
    RplEndOfMotd,
    RplYoureOper,
    RplRehashing,
    RplYoureService,
    RplTime,
    RplUsersStart,
    RplUsers,
    RplEndOfUsers,
    RplNoUsers,
    RplTraceLink,
    RplTraceConnecting,
    RplTraceHandshake,
    RplTraceUnknown,
    RplTraceOperator,
    RplTraceUser,
    RplTraceServer,
    RplTraceService,
    RplTraceNewType,
    RplTraceClass,
    RplTraceReconnect,
    RplTraceLog,
    RplTraceEnd,
    RplStatsLinkInfo,
    RplStatsCommands,
    RplEndOfStats,
    RplStatsUptime,
    RplStatsOLine,
    RplUModeIs,
    RplServList,
    RplServListEnd,
    RplLUserClient,
    RplLUserOp,
    RplLUserUnknown,
    RplLUserChannels,
    RplLUserMe,
    RplAdminMe,
    RplAdminLoc1,
    RplAdminLoc2,
    RplAdminEmail,
    RplTryAgain,
    RplUnknown(u16),
    ErrNoSuchNick,
    ErrNoSuchServer,
    ErrNoSuchChannel,
    ErrCannotSendToChan,
    ErrTooManyChannels,
    ErrWasNoSuchNick,
    ErrTooManyTargets,
    ErrNoSuchService,
    ErrNoOrigin,
    ErrNoRecipient,
    ErrNoTextToSend,
    ErrNoTopLevel,
    ErrWildTopLevel,
    ErrBadMask,
    ErrUnknownCommand,
    ErrNoMotd,
    ErrNoAdminInfo,
    ErrFileError,
    ErrNoNicknameGiven,
    ErrErroneusNickname,
    ErrNicknameInUse,
    ErrNickCollision,
    ErrUnavailResource,
    ErrUserNotInChannel,
    ErrNotOnChannel,
    ErrUserOnChannel,
    ErrNoLogin,
    ErrSummonDisabled,
    ErrUsersDisabled,
    ErrNotRegistered,
    ErrNeedMoreParams,
    ErrAlreadyRegistred,
    ErrNoPermForHost,
    ErrPasswdMismatch,
    ErrYoureBannedCreep,
    ErrYouWillBeBanned,
    ErrKeySet,
    ErrChannelIsFull,
    ErrUnknownMode,
    ErrInviteOnlyChan,
    ErrBannedFromChan,
    ErrBadChannelKey,
    ErrBadChanMask,
    ErrNoChanModes,
    ErrBanListFull,
    ErrNoPrivileges,
    ErrChanOPrivsNeeded,
    ErrCantKillServer,
    ErrRestricted,
    ErrUniqOpPrivsNeeded,
    ErrNoOperHost,
    ErrUModeUnknownFlag,
    ErrUsersDontMatch,
    ErrUnknown(u16),
}

impl View for ReplyType {
    type V = ReplyType;

    open spec fn view(&self) -> ReplyType {
        *self
    }
}

/// The numeric code a reply renders as.
pub open spec fn reply_code(rt: ReplyType) -> int {
    match rt {
        ReplyType::PrvWelcome => 1,
        ReplyType::PrvYourHost => 2,
        ReplyType::PrvCreated => 3,
        ReplyType::PrvMyInfo => 4,
        ReplyType::PrvBounce => 5,
        ReplyType::PrvUnknown(c) => c as int,
        ReplyType::RplUserHost => 302,
        ReplyType::RplIsOn => 303,
        ReplyType::RplAway => 301,
        ReplyType::RplUnAway => 305,
        ReplyType::RplNowAway => 306,
        ReplyType::RplWhoIsUser => 311,
        ReplyType::RplWhoIsServer => 312,
        ReplyType::RplWhoIsOperator => 313,
        ReplyType::RplWhoIsIdle => 317,
        ReplyType::RplEndOfWhoIs => 318,
        ReplyType::RplWhoIsChannels => 319,
        ReplyType::RplWhoWasUser => 314,
        ReplyType::RplEndOfWhoWas => 369,
        ReplyType::RplListStart => 321,
        ReplyType::RplList => 322,
        ReplyType::RplListEnd => 323,
        ReplyType::RplUniqOpIs => 325,
        ReplyType::RplChannelModeIs => 324,
        ReplyType::RplNoTopic => 331,
        ReplyType::RplTopic => 332,
        ReplyType::RplInviting => 341,
        ReplyType::RplSummoning => 342,
        ReplyType::RplInviteList => 346,
        ReplyType::RplEndOfInviteList => 347,
        ReplyType::RplExceptList => 348,
        ReplyType::RplEndOfExceptList => 349,
        ReplyType::RplVersion => 351,
        ReplyType::RplWhoReply => 352,
        ReplyType::RplEndOfWho => 315,
        ReplyType::RplNamReply => 353,
        ReplyType::RplEndOfNames => 366,
        ReplyType::RplLinks => 364,
        ReplyType::RplEndOfLinks => 365,
        ReplyType::RplBanList => 367,
        ReplyType::RplEndOfBanList => 368,
        ReplyType::RplInfo => 371,
        ReplyType::RplEndOfInfo => 374,
        ReplyType::RplMotdStart => 375,
        ReplyType::RplMotd => 372,
        ReplyType::RplEndOfMotd => 376,
        ReplyType::RplYoureOper => 381,
        ReplyType::RplRehashing => 382,
        ReplyType::RplYoureService => 383,
        ReplyType::RplTime => 391,
        ReplyType::RplUsersStart => 392,
        ReplyType::RplUsers => 393,
        ReplyType::RplEndOfUsers => 394,
        ReplyType::RplNoUsers => 395,
        ReplyType::RplTraceLink => 200,
        ReplyType::RplTraceConnecting => 201,
        ReplyType::RplTraceHandshake => 202,
        ReplyType::RplTraceUnknown => 203,
        ReplyType::RplTraceOperator => 204,
        ReplyType::RplTraceUser => 205,
        ReplyType::RplTraceServer => 206,
        ReplyType::RplTraceService => 207,
        ReplyType::RplTraceNewType => 208,
        ReplyType::RplTraceClass => 209,
        ReplyType::RplTraceReconnect => 210,
        ReplyType::RplTraceLog => 261,
        ReplyType::RplTraceEnd => 262,
        ReplyType::RplStatsLinkInfo => 211,
        ReplyType::RplStatsCommands => 212,
        ReplyType::RplEndOfStats => 219,
        ReplyType::RplStatsUptime => 242,
        ReplyType::RplStatsOLine => 243,
        ReplyType::RplUModeIs => 221,
        ReplyType::RplServList => 234,
        ReplyType::RplServListEnd => 235,
        ReplyType::RplLUserClient => 251,
        ReplyType::RplLUserOp => 252,
        ReplyType::RplLUserUnknown => 253,
        ReplyType::RplLUserChannels => 254,
        ReplyType::RplLUserMe => 255,
        ReplyType::RplAdminMe => 256,
        ReplyType::RplAdminLoc1 => 257,
        ReplyType::RplAdminLoc2 => 258,
        ReplyType::RplAdminEmail => 259,
        ReplyType::RplTryAgain => 263,
        ReplyType::RplUnknown(c) => c as int,
        ReplyType::ErrNoSuchNick => 401,
        ReplyType::ErrNoSuchServer => 402,
        ReplyType::ErrNoSuchChannel => 403,
        ReplyType::ErrCannotSendToChan => 404,
        ReplyType::ErrTooManyChannels => 405,
        ReplyType::ErrWasNoSuchNick => 406,
        ReplyType::ErrTooManyTargets => 407,
        ReplyType::ErrNoSuchService => 408,
        ReplyType::ErrNoOrigin => 409,
        ReplyType::ErrNoRecipient => 411,
        ReplyType::ErrNoTextToSend => 412,
        ReplyType::ErrNoTopLevel => 413,
        ReplyType::ErrWildTopLevel => 414,
        ReplyType::ErrBadMask => 415,
        ReplyType::ErrUnknownCommand => 421,
        ReplyType::ErrNoMotd => 422,
        ReplyType::ErrNoAdminInfo => 423,
        ReplyType::ErrFileError => 424,
        ReplyType::ErrNoNicknameGiven => 431,
        ReplyType::ErrErroneusNickname => 432,
        ReplyType::ErrNicknameInUse => 433,
        ReplyType::ErrNickCollision => 436,
        ReplyType::ErrUnavailResource => 437,
        ReplyType::ErrUserNotInChannel => 441,
        ReplyType::ErrNotOnChannel => 442,
        ReplyType::ErrUserOnChannel => 443,
        ReplyType::ErrNoLogin => 444,
        ReplyType::ErrSummonDisabled => 445,
        ReplyType::ErrUsersDisabled => 446,
        ReplyType::ErrNotRegistered => 451,
        ReplyType::ErrNeedMoreParams => 461,
        ReplyType::ErrAlreadyRegistred => 462,
        ReplyType::ErrNoPermForHost => 463,
        ReplyType::ErrPasswdMismatch => 464,
        ReplyType::ErrYoureBannedCreep => 465,
        ReplyType::ErrYouWillBeBanned => 466,
        ReplyType::ErrKeySet => 467,
        ReplyType::ErrChannelIsFull => 471,
        ReplyType::ErrUnknownMode => 472,
        ReplyType::ErrInviteOnlyChan => 473,
        ReplyType::ErrBannedFromChan => 474,
        ReplyType::ErrBadChannelKey => 475,
        ReplyType::ErrBadChanMask => 476,
        ReplyType::ErrNoChanModes => 477,
        ReplyType::ErrBanListFull => 478,
        ReplyType::ErrNoPrivileges => 481,
        ReplyType::ErrChanOPrivsNeeded => 482,
        ReplyType::ErrCantKillServer => 483,
        ReplyType::ErrRestricted => 484,
        ReplyType::ErrUniqOpPrivsNeeded => 485,
        ReplyType::ErrNoOperHost => 491,
        ReplyType::ErrUModeUnknownFlag => 501,
        ReplyType::ErrUsersDontMatch => 502,
        ReplyType::ErrUnknown(c) => c as int,
    }
}

/// The reply a numeric code denotes: a named variant where the RFC names
/// one, else the bucket of its range. Out-of-range codes have no reply;
/// they fall back to the first variant and are never accepted by a parser.
pub open spec fn reply_of(n: int) -> ReplyType {
    if false {
        ReplyType::PrvWelcome
    } else if n == 1 {
        ReplyType::PrvWelcome
    } else if n == 2 {
        ReplyType::PrvYourHost
    } else if n == 3 {
        ReplyType::PrvCreated
    } else if n == 4 {
        ReplyType::PrvMyInfo
    } else if n == 5 {
        ReplyType::PrvBounce
    } else if n == 200 {
        ReplyType::RplTraceLink
    } else if n == 201 {
        ReplyType::RplTraceConnecting
    } else if n == 202 {
        ReplyType::RplTraceHandshake
    } else if n == 203 {
        ReplyType::RplTraceUnknown
    } else if n == 204 {
        ReplyType::RplTraceOperator
    } else if n == 205 {
        ReplyType::RplTraceUser
    } else if n == 206 {
        ReplyType::RplTraceServer
    } else if n == 207 {
        ReplyType::RplTraceService
    } else if n == 208 {
        ReplyType::RplTraceNewType
    } else if n == 209 {
        ReplyType::RplTraceClass
    } else if n == 210 {
        ReplyType::RplTraceReconnect
    } else if n == 211 {
        ReplyType::RplStatsLinkInfo
    } else if n == 212 {
        ReplyType::RplStatsCommands
    } else if n == 219 {
        ReplyType::RplEndOfStats
    } else if n == 221 {
        ReplyType::RplUModeIs
    } else if n == 234 {
        ReplyType::RplServList
    } else if n == 235 {
        ReplyType::RplServListEnd
    } else if n == 242 {
        ReplyType::RplStatsUptime
    } else if n == 243 {
        ReplyType::RplStatsOLine
    } else if n == 251 {
        ReplyType::RplLUserClient
    } else if n == 252 {
        ReplyType::RplLUserOp
    } else if n == 253 {
        ReplyType::RplLUserUnknown
    } else if n == 254 {
        ReplyType::RplLUserChannels
    } else if n == 255 {
        ReplyType::RplLUserMe
    } else if n == 256 {
        ReplyType::RplAdminMe
    } else if n == 257 {
        ReplyType::RplAdminLoc1
    } else if n == 258 {
        ReplyType::RplAdminLoc2
    } else if n == 259 {
        ReplyType::RplAdminEmail
    } else if n == 261 {
        ReplyType::RplTraceLog
    } else if n == 262 {
        ReplyType::RplTraceEnd
    } else if n == 263 {
        ReplyType::RplTryAgain
    } else if n == 301 {
        ReplyType::RplAway
    } else if n == 302 {
        ReplyType::RplUserHost
    } else if n == 303 {
        ReplyType::RplIsOn
    } else if n == 305 {
        ReplyType::RplUnAway
    } else if n == 306 {
        ReplyType::RplNowAway
    } else if n == 311 {
        ReplyType::RplWhoIsUser
    } else if n == 312 {
        ReplyType::RplWhoIsServer
    } else if n == 313 {
        ReplyType::RplWhoIsOperator
    } else if n == 314 {
        ReplyType::RplWhoWasUser
    } else if n == 315 {
        ReplyType::RplEndOfWho
    } else if n == 317 {
        ReplyType::RplWhoIsIdle
    } else if n == 318 {
        ReplyType::RplEndOfWhoIs
    } else if n == 319 {
        ReplyType::RplWhoIsChannels
    } else if n == 321 {
        ReplyType::RplListStart
    } else if n == 322 {
        ReplyType::RplList
    } else if n == 323 {
        ReplyType::RplListEnd
    } else if n == 324 {
        ReplyType::RplChannelModeIs
    } else if n == 325 {
        ReplyType::RplUniqOpIs
    } else if n == 331 {
        ReplyType::RplNoTopic
    } else if n == 332 {
        ReplyType::RplTopic
    } else if n == 341 {
        ReplyType::RplInviting
    } else if n == 342 {
        ReplyType::RplSummoning
    } else if n == 346 {
        ReplyType::RplInviteList
    } else if n == 347 {
        ReplyType::RplEndOfInviteList
    } else if n == 348 {
        ReplyType::RplExceptList
    } else if n == 349 {
        ReplyType::RplEndOfExceptList
    } else if n == 351 {
        ReplyType::RplVersion
    } else if n == 352 {
        ReplyType::RplWhoReply
    } else if n == 353 {
        ReplyType::RplNamReply
    } else if n == 364 {
        ReplyType::RplLinks
    } else if n == 365 {
        ReplyType::RplEndOfLinks
    } else if n == 366 {
        ReplyType::RplEndOfNames
    } else if n == 367 {
        ReplyType::RplBanList
    } else if n == 368 {
        ReplyType::RplEndOfBanList
    } else if n == 369 {
        ReplyType::RplEndOfWhoWas
    } else if n == 371 {
        ReplyType::RplInfo
    } else if n == 372 {
        ReplyType::RplMotd
    } else if n == 374 {
        ReplyType::RplEndOfInfo
    } else if n == 375 {
        ReplyType::RplMotdStart
    } else if n == 376 {
        ReplyType::RplEndOfMotd
    } else if n == 381 {
        ReplyType::RplYoureOper
    } else if n == 382 {
        ReplyType::RplRehashing
    } else if n == 383 {
        ReplyType::RplYoureService
    } else if n == 391 {
        ReplyType::RplTime
    } else if n == 392 {
        ReplyType::RplUsersStart
    } else if n == 393 {
        ReplyType::RplUsers
    } else if n == 394 {
        ReplyType::RplEndOfUsers
    } else if n == 395 {
        ReplyType::RplNoUsers
    } else if n == 401 {
        ReplyType::ErrNoSuchNick
    } else if n == 402 {
        ReplyType::ErrNoSuchServer
    } else if n == 403 {
        ReplyType::ErrNoSuchChannel
    } else if n == 404 {
        ReplyType::ErrCannotSendToChan
    } else if n == 405 {
        ReplyType::ErrTooManyChannels
    } else if n == 406 {
        ReplyType::ErrWasNoSuchNick
    } else if n == 407 {
        ReplyType::ErrTooManyTargets
    } else if n == 408 {
        ReplyType::ErrNoSuchService
    } else if n == 409 {
        ReplyType::ErrNoOrigin
    } else if n == 411 {
        ReplyType::ErrNoRecipient
    } else if n == 412 {
        ReplyType::ErrNoTextToSend
    } else if n == 413 {
        ReplyType::ErrNoTopLevel
    } else if n == 414 {
        ReplyType::ErrWildTopLevel
    } else if n == 415 {
        ReplyType::ErrBadMask
    } else if n == 421 {
        ReplyType::ErrUnknownCommand
    } else if n == 422 {
        ReplyType::ErrNoMotd
    } else if n == 423 {
        ReplyType::ErrNoAdminInfo
    } else if n == 424 {
        ReplyType::ErrFileError
    } else if n == 431 {
        ReplyType::ErrNoNicknameGiven
    } else if n == 432 {
        ReplyType::ErrErroneusNickname
    } else if n == 433 {
        ReplyType::ErrNicknameInUse
    } else if n == 436 {
        ReplyType::ErrNickCollision
    } else if n == 437 {
        ReplyType::ErrUnavailResource
    } else if n == 441 {
        ReplyType::ErrUserNotInChannel
    } else if n == 442 {
        ReplyType::ErrNotOnChannel
    } else if n == 443 {
        ReplyType::ErrUserOnChannel
    } else if n == 444 {
        ReplyType::ErrNoLogin
    } else if n == 445 {
        ReplyType::ErrSummonDisabled
    } else if n == 446 {
        ReplyType::ErrUsersDisabled
    } else if n == 451 {
        ReplyType::ErrNotRegistered
    } else if n == 461 {
        ReplyType::ErrNeedMoreParams
    } else if n == 462 {
        ReplyType::ErrAlreadyRegistred
    } else if n == 463 {
        ReplyType::ErrNoPermForHost
    } else if n == 464 {
        ReplyType::ErrPasswdMismatch
    } else if n == 465 {
        ReplyType::ErrYoureBannedCreep
    } else if n == 466 {
        ReplyType::ErrYouWillBeBanned
    } else if n == 467 {
        ReplyType::ErrKeySet
    } else if n == 471 {
        ReplyType::ErrChannelIsFull
    } else if n == 472 {
        ReplyType::ErrUnknownMode
    } else if n == 473 {
        ReplyType::ErrInviteOnlyChan
    } else if n == 474 {
        ReplyType::ErrBannedFromChan
    } else if n == 475 {
        ReplyType::ErrBadChannelKey
    } else if n == 476 {
        ReplyType::ErrBadChanMask
    } else if n == 477 {
        ReplyType::ErrNoChanModes
    } else if n == 478 {
        ReplyType::ErrBanListFull
    } else if n == 481 {
        ReplyType::ErrNoPrivileges
    } else if n == 482 {
        ReplyType::ErrChanOPrivsNeeded
    } else if n == 483 {
        ReplyType::ErrCantKillServer
    } else if n == 484 {
        ReplyType::ErrRestricted
    } else if n == 485 {
        ReplyType::ErrUniqOpPrivsNeeded
    } else if n == 491 {
        ReplyType::ErrNoOperHost
    } else if n == 501 {
        ReplyType::ErrUModeUnknownFlag
    } else if n == 502 {
        ReplyType::ErrUsersDontMatch
    } else if 0 <= n <= 99 {
        ReplyType::PrvUnknown(n as u16)
    } else if 200 <= n <= 399 {
        ReplyType::RplUnknown(n as u16)
    } else if 400 <= n <= 599 {
        ReplyType::ErrUnknown(n as u16)
    } else {
        ReplyType::PrvWelcome
    }
}

/// The codes the wire can carry.
pub open spec fn reply_code_in_range(n: int) -> bool {
    0 <= n <= 99 || 200 <= n <= 599
}

/// A reply value the parser could have produced: its own code maps back to
/// it, which pins the bucket variants to unnamed in-range codes.
pub open spec fn reply_wf(rt: ReplyType) -> bool {
    reply_of(reply_code(rt)) == rt && reply_code_in_range(reply_code(rt))
}

/// Round trip from code to reply and back, for every code on the wire.
pub proof fn lemma_reply_of_code(n: int)
    requires
        reply_code_in_range(n),
    ensures
        reply_code(reply_of(n)) == n,
        reply_wf(reply_of(n)),
{
}

/// Round trip from reply to code and back: every well-formed reply is the
/// reply of its own code.
pub proof fn lemma_reply_code_of(rt: ReplyType)
    requires
        reply_wf(rt),
    ensures
        reply_of(reply_code(rt)) == rt,
{
}

/// The three digits of a code, most significant first.
pub open spec fn reply_text(n: int) -> Seq<char> {
    seq![digit_of(n / 100), digit_of((n / 10) % 10), digit_of(n % 10)]
}

/// The digit character for a value.
pub open spec fn digit_of(d: int) -> char {
    if d == 0 { '0' } else if d == 1 { '1' } else if d == 2 { '2' } else if d == 3 { '3' }
    else if d == 4 { '4' } else if d == 5 { '5' } else if d == 6 { '6' } else if d == 7 { '7' }
    else if d == 8 { '8' } else { '9' }
}

pub fn exec_digit_of(d: u32) -> (r: char)
    requires
        d <= 9,
    ensures
        r == digit_of(d as int),
{
    if d == 0 { '0' } else if d == 1 { '1' } else if d == 2 { '2' } else if d == 3 { '3' }
    else if d == 4 { '4' } else if d == 5 { '5' } else if d == 6 { '6' } else if d == 7 { '7' }
    else if d == 8 { '8' } else { '9' }
}

pub proof fn lemma_digit_round(c: char)
    requires
        digit_char(c),
    ensures
        digit_of(digit_val(c)) == c,
{
}

/// The code a three-digit text denotes.
pub open spec fn code_of_text(s: Seq<char>) -> int {
    100 * digit_val(s[0]) + 10 * digit_val(s[1]) + digit_val(s[2])
}

/// Which texts are reply codes: exactly three digits whose value is on the
/// wire's ranges.
pub open spec fn reply_accepts(s: Seq<char>) -> bool {
    s.len() == 3 && digit_char(s[0]) && digit_char(s[1]) && digit_char(s[2])
        && reply_code_in_range(code_of_text(s))
}

impl ReplyType {
    /// Parse a three-digit reply code.
    pub fn parse(s: &str) -> (r: Result<ReplyType, ParseError>)
        ensures
            r is Ok <==> reply_accepts(s@),
            r matches Ok(t) ==> t == reply_of(code_of_text(s@)),
    {
        let v = to_chars(s);
        Self::parse_chars(&v)
    }

    /// Parse a three-digit reply code from characters.
    #[verifier::rlimit(50)]
    pub fn parse_chars(v: &Vec<char>) -> (r: Result<ReplyType, ParseError>)
        ensures
            r is Ok <==> reply_accepts(v@),
            r matches Ok(t) ==> t == reply_of(code_of_text(v@)),
    {
        if v.len() != 3 {
            return Err(ParseError::new("ReplyType"));
        }
        if !is_digit_char(v[0]) || !is_digit_char(v[1]) || !is_digit_char(v[2]) {
            return Err(ParseError::new("ReplyType"));
        }
        let n: u32 = 100 * (v[0] as u32 - 48) + 10 * (v[1] as u32 - 48) + (v[2] as u32 - 48);
        let rt = match n {
            1 => ReplyType::PrvWelcome,
            2 => ReplyType::PrvYourHost,
            3 => ReplyType::PrvCreated,
            4 => ReplyType::PrvMyInfo,
            5 => ReplyType::PrvBounce,
            200 => ReplyType::RplTraceLink,
            201 => ReplyType::RplTraceConnecting,
            202 => ReplyType::RplTraceHandshake,
            203 => ReplyType::RplTraceUnknown,
            204 => ReplyType::RplTraceOperator,
            205 => ReplyType::RplTraceUser,
            206 => ReplyType::RplTraceServer,
            207 => ReplyType::RplTraceService,
            208 => ReplyType::RplTraceNewType,
            209 => ReplyType::RplTraceClass,
            210 => ReplyType::RplTraceReconnect,
            211 => ReplyType::RplStatsLinkInfo,
            212 => ReplyType::RplStatsCommands,
            219 => ReplyType::RplEndOfStats,
            221 => ReplyType::RplUModeIs,
            234 => ReplyType::RplServList,
            235 => ReplyType::RplServListEnd,
            242 => ReplyType::RplStatsUptime,
            243 => ReplyType::RplStatsOLine,
            251 => ReplyType::RplLUserClient,
            252 => ReplyType::RplLUserOp,
            253 => ReplyType::RplLUserUnknown,
            254 => ReplyType::RplLUserChannels,
            255 => ReplyType::RplLUserMe,
            256 => ReplyType::RplAdminMe,
            257 => ReplyType::RplAdminLoc1,
            258 => ReplyType::RplAdminLoc2,
            259 => ReplyType::RplAdminEmail,
            261 => ReplyType::RplTraceLog,
            262 => ReplyType::RplTraceEnd,
            263 => ReplyType::RplTryAgain,
            301 => ReplyType::RplAway,
            302 => ReplyType::RplUserHost,
            303 => ReplyType::RplIsOn,
            305 => ReplyType::RplUnAway,
            306 => ReplyType::RplNowAway,
            311 => ReplyType::RplWhoIsUser,
            312 => ReplyType::RplWhoIsServer,
            313 => ReplyType::RplWhoIsOperator,
            314 => ReplyType::RplWhoWasUser,
            315 => ReplyType::RplEndOfWho,
            317 => ReplyType::RplWhoIsIdle,
            318 => ReplyType::RplEndOfWhoIs,
            319 => ReplyType::RplWhoIsChannels,
            321 => ReplyType::RplListStart,
            322 => ReplyType::RplList,
            323 => ReplyType::RplListEnd,
            324 => ReplyType::RplChannelModeIs,
            325 => ReplyType::RplUniqOpIs,
            331 => ReplyType::RplNoTopic,
            332 => ReplyType::RplTopic,
            341 => ReplyType::RplInviting,
            342 => ReplyType::RplSummoning,
            346 => ReplyType::RplInviteList,
            347 => ReplyType::RplEndOfInviteList,
            348 => ReplyType::RplExceptList,
            349 => ReplyType::RplEndOfExceptList,
            351 => ReplyType::RplVersion,
            352 => ReplyType::RplWhoReply,
            353 => ReplyType::RplNamReply,
            364 => ReplyType::RplLinks,
            365 => ReplyType::RplEndOfLinks,
            366 => ReplyType::RplEndOfNames,
            367 => ReplyType::RplBanList,
            368 => ReplyType::RplEndOfBanList,
            369 => ReplyType::RplEndOfWhoWas,
            371 => ReplyType::RplInfo,
            372 => ReplyType::RplMotd,
            374 => ReplyType::RplEndOfInfo,
            375 => ReplyType::RplMotdStart,
            376 => ReplyType::RplEndOfMotd,
            381 => ReplyType::RplYoureOper,
            382 => ReplyType::RplRehashing,
            383 => ReplyType::RplYoureService,
            391 => ReplyType::RplTime,
            392 => ReplyType::RplUsersStart,
            393 => ReplyType::RplUsers,
            394 => ReplyType::RplEndOfUsers,
            395 => ReplyType::RplNoUsers,
            401 => ReplyType::ErrNoSuchNick,
            402 => ReplyType::ErrNoSuchServer,
            403 => ReplyType::ErrNoSuchChannel,
            404 => ReplyType::ErrCannotSendToChan,
            405 => ReplyType::ErrTooManyChannels,
            406 => ReplyType::ErrWasNoSuchNick,
            407 => ReplyType::ErrTooManyTargets,
            408 => ReplyType::ErrNoSuchService,
            409 => ReplyType::ErrNoOrigin,
            411 => ReplyType::ErrNoRecipient,
            412 => ReplyType::ErrNoTextToSend,
            413 => ReplyType::ErrNoTopLevel,
            414 => ReplyType::ErrWildTopLevel,
            415 => ReplyType::ErrBadMask,
            421 => ReplyType::ErrUnknownCommand,
            422 => ReplyType::ErrNoMotd,
            423 => ReplyType::ErrNoAdminInfo,
            424 => ReplyType::ErrFileError,
            431 => ReplyType::ErrNoNicknameGiven,
            432 => ReplyType::ErrErroneusNickname,
            433 => ReplyType::ErrNicknameInUse,
            436 => ReplyType::ErrNickCollision,
            437 => ReplyType::ErrUnavailResource,
            441 => ReplyType::ErrUserNotInChannel,
            442 => ReplyType::ErrNotOnChannel,
            443 => ReplyType::ErrUserOnChannel,
            444 => ReplyType::ErrNoLogin,
            445 => ReplyType::ErrSummonDisabled,
            446 => ReplyType::ErrUsersDisabled,
            451 => ReplyType::ErrNotRegistered,
            461 => ReplyType::ErrNeedMoreParams,
            462 => ReplyType::ErrAlreadyRegistred,
            463 => ReplyType::ErrNoPermForHost,
            464 => ReplyType::ErrPasswdMismatch,
            465 => ReplyType::ErrYoureBannedCreep,
            466 => ReplyType::ErrYouWillBeBanned,
            467 => ReplyType::ErrKeySet,
            471 => ReplyType::ErrChannelIsFull,
            472 => ReplyType::ErrUnknownMode,
            473 => ReplyType::ErrInviteOnlyChan,
            474 => ReplyType::ErrBannedFromChan,
            475 => ReplyType::ErrBadChannelKey,
            476 => ReplyType::ErrBadChanMask,
            477 => ReplyType::ErrNoChanModes,
            478 => ReplyType::ErrBanListFull,
            481 => ReplyType::ErrNoPrivileges,
            482 => ReplyType::ErrChanOPrivsNeeded,
            483 => ReplyType::ErrCantKillServer,
            484 => ReplyType::ErrRestricted,
            485 => ReplyType::ErrUniqOpPrivsNeeded,
            491 => ReplyType::ErrNoOperHost,
            501 => ReplyType::ErrUModeUnknownFlag,
            502 => ReplyType::ErrUsersDontMatch,
            0..=99 => ReplyType::PrvUnknown(n as u16),
            200..=399 => ReplyType::RplUnknown(n as u16),
            400..=599 => ReplyType::ErrUnknown(n as u16),
            _ => {
                return Err(ParseError::new("ReplyType"));
            },
        };
        Ok(rt)
    }

    /// The three-digit zero-padded text of this reply.
    pub fn render(&self) -> (r: String)
        requires
            reply_wf(*self),
        ensures
            r@ == reply_text(reply_code(*self)),
    {
        let v = self.render_chars();
        from_chars(&v)
    }

    /// The three digits of this reply as characters.
    #[verifier::rlimit(50)]
    pub fn render_chars(&self) -> (r: Vec<char>)
        requires
            reply_wf(*self),
        ensures
            r@ == reply_text(reply_code(*self)),
    {
        let n = self.code();
        let mut r: Vec<char> = Vec::new();
        r.push(exec_digit_of(n / 100));
        r.push(exec_digit_of((n / 10) % 10));
        r.push(exec_digit_of(n % 10));
        proof {
            assert(r@ =~= reply_text(reply_code(*self)));
        }
        r
    }

    /// The numeric code of this reply.
    #[verifier::rlimit(50)]
    pub fn code(&self) -> (r: u32)
        requires
            reply_wf(*self),
        ensures
            r == reply_code(*self),
            r <= 599,
    {
        match self {
            ReplyType::PrvWelcome => 1,
            ReplyType::PrvYourHost => 2,
            ReplyType::PrvCreated => 3,
            ReplyType::PrvMyInfo => 4,
            ReplyType::PrvBounce => 5,
            ReplyType::PrvUnknown(c) => *c as u32,
            ReplyType::RplUserHost => 302,
            ReplyType::RplIsOn => 303,
            ReplyType::RplAway => 301,
            ReplyType::RplUnAway => 305,
            ReplyType::RplNowAway => 306,
            ReplyType::RplWhoIsUser => 311,
            ReplyType::RplWhoIsServer => 312,
            ReplyType::RplWhoIsOperator => 313,
            ReplyType::RplWhoIsIdle => 317,
            ReplyType::RplEndOfWhoIs => 318,
            ReplyType::RplWhoIsChannels => 319,
            ReplyType::RplWhoWasUser => 314,
            ReplyType::RplEndOfWhoWas => 369,
            ReplyType::RplListStart => 321,
            ReplyType::RplList => 322,
            ReplyType::RplListEnd => 323,
            ReplyType::RplUniqOpIs => 325,
            ReplyType::RplChannelModeIs => 324,
            ReplyType::RplNoTopic => 331,
            ReplyType::RplTopic => 332,
            ReplyType::RplInviting => 341,
            ReplyType::RplSummoning => 342,
            ReplyType::RplInviteList => 346,
            ReplyType::RplEndOfInviteList => 347,
            ReplyType::RplExceptList => 348,
            ReplyType::RplEndOfExceptList => 349,
            ReplyType::RplVersion => 351,
            ReplyType::RplWhoReply => 352,
            ReplyType::RplEndOfWho => 315,
            ReplyType::RplNamReply => 353,
            ReplyType::RplEndOfNames => 366,
            ReplyType::RplLinks => 364,
            ReplyType::RplEndOfLinks => 365,
            ReplyType::RplBanList => 367,
            ReplyType::RplEndOfBanList => 368,
            ReplyType::RplInfo => 371,
            ReplyType::RplEndOfInfo => 374,
            ReplyType::RplMotdStart => 375,
            ReplyType::RplMotd => 372,
            ReplyType::RplEndOfMotd => 376,
            ReplyType::RplYoureOper => 381,
            ReplyType::RplRehashing => 382,
            ReplyType::RplYoureService => 383,
            ReplyType::RplTime => 391,
            ReplyType::RplUsersStart => 392,
            ReplyType::RplUsers => 393,
            ReplyType::RplEndOfUsers => 394,
            ReplyType::RplNoUsers => 395,
            ReplyType::RplTraceLink => 200,
            ReplyType::RplTraceConnecting => 201,
            ReplyType::RplTraceHandshake => 202,
            ReplyType::RplTraceUnknown => 203,
            ReplyType::RplTraceOperator => 204,
            ReplyType::RplTraceUser => 205,
            ReplyType::RplTraceServer => 206,
            ReplyType::RplTraceService => 207,
            ReplyType::RplTraceNewType => 208,
            ReplyType::RplTraceClass => 209,
            ReplyType::RplTraceReconnect => 210,
            ReplyType::RplTraceLog => 261,
            ReplyType::RplTraceEnd => 262,
            ReplyType::RplStatsLinkInfo => 211,
            ReplyType::RplStatsCommands => 212,
            ReplyType::RplEndOfStats => 219,
            ReplyType::RplStatsUptime => 242,
            ReplyType::RplStatsOLine => 243,
            ReplyType::RplUModeIs => 221,
            ReplyType::RplServList => 234,
            ReplyType::RplServListEnd => 235,
            ReplyType::RplLUserClient => 251,
            ReplyType::RplLUserOp => 252,
            ReplyType::RplLUserUnknown => 253,
            ReplyType::RplLUserChannels => 254,
            ReplyType::RplLUserMe => 255,
            ReplyType::RplAdminMe => 256,
            ReplyType::RplAdminLoc1 => 257,
            ReplyType::RplAdminLoc2 => 258,
            ReplyType::RplAdminEmail => 259,
            ReplyType::RplTryAgain => 263,
            ReplyType::RplUnknown(c) => *c as u32,
            ReplyType::ErrNoSuchNick => 401,
            ReplyType::ErrNoSuchServer => 402,
            ReplyType::ErrNoSuchChannel => 403,
            ReplyType::ErrCannotSendToChan => 404,
            ReplyType::ErrTooManyChannels => 405,
            ReplyType::ErrWasNoSuchNick => 406,
            ReplyType::ErrTooManyTargets => 407,
            ReplyType::ErrNoSuchService => 408,
            ReplyType::ErrNoOrigin => 409,
            ReplyType::ErrNoRecipient => 411,
            ReplyType::ErrNoTextToSend => 412,
            ReplyType::ErrNoTopLevel => 413,
            ReplyType::ErrWildTopLevel => 414,
            ReplyType::ErrBadMask => 415,
            ReplyType::ErrUnknownCommand => 421,
            ReplyType::ErrNoMotd => 422,
            ReplyType::ErrNoAdminInfo => 423,
            ReplyType::ErrFileError => 424,
            ReplyType::ErrNoNicknameGiven => 431,
            ReplyType::ErrErroneusNickname => 432,
            ReplyType::ErrNicknameInUse => 433,
            ReplyType::ErrNickCollision => 436,
            ReplyType::ErrUnavailResource => 437,
            ReplyType::ErrUserNotInChannel => 441,
            ReplyType::ErrNotOnChannel => 442,
            ReplyType::ErrUserOnChannel => 443,
            ReplyType::ErrNoLogin => 444,
            ReplyType::ErrSummonDisabled => 445,
            ReplyType::ErrUsersDisabled => 446,
            ReplyType::ErrNotRegistered => 451,
            ReplyType::ErrNeedMoreParams => 461,
            ReplyType::ErrAlreadyRegistred => 462,
            ReplyType::ErrNoPermForHost => 463,
            ReplyType::ErrPasswdMismatch => 464,
            ReplyType::ErrYoureBannedCreep => 465,
            ReplyType::ErrYouWillBeBanned => 466,
            ReplyType::ErrKeySet => 467,
            ReplyType::ErrChannelIsFull => 471,
            ReplyType::ErrUnknownMode => 472,
            ReplyType::ErrInviteOnlyChan => 473,
            ReplyType::ErrBannedFromChan => 474,
            ReplyType::ErrBadChannelKey => 475,
            ReplyType::ErrBadChanMask => 476,
            ReplyType::ErrNoChanModes => 477,
            ReplyType::ErrBanListFull => 478,
            ReplyType::ErrNoPrivileges => 481,
            ReplyType::ErrChanOPrivsNeeded => 482,
            ReplyType::ErrCantKillServer => 483,
            ReplyType::ErrRestricted => 484,
            ReplyType::ErrUniqOpPrivsNeeded => 485,
            ReplyType::ErrNoOperHost => 491,
            ReplyType::ErrUModeUnknownFlag => 501,
            ReplyType::ErrUsersDontMatch => 502,
            ReplyType::ErrUnknown(c) => *c as u32,
        }
    }

    /// The parse-and-render round trip of every reply code on the wire:
    /// a named variant for each listed code, the range's bucket for the
    /// rest, and the same three digits out again.
    pub proof fn lemma_code_roundtrip(s: Seq<char>)
        requires
            reply_accepts(s),
        ensures
            reply_wf(reply_of(code_of_text(s))),
            reply_text(reply_code(reply_of(code_of_text(s)))) == s,
    {
        let n = code_of_text(s);
        lemma_reply_of_code(n);
        lemma_digit_round(s[0]);
        lemma_digit_round(s[1]);
        lemma_digit_round(s[2]);
        assert(n / 100 == digit_val(s[0])) by (nonlinear_arith)
            requires
                n == 100 * digit_val(s[0]) + 10 * digit_val(s[1]) + digit_val(s[2]),
                0 <= digit_val(s[0]) <= 9,
                0 <= digit_val(s[1]) <= 9,
                0 <= digit_val(s[2]) <= 9,
        ;
        assert((n / 10) % 10 == digit_val(s[1])) by (nonlinear_arith)
            requires
                n == 100 * digit_val(s[0]) + 10 * digit_val(s[1]) + digit_val(s[2]),
                0 <= digit_val(s[0]) <= 9,
                0 <= digit_val(s[1]) <= 9,
                0 <= digit_val(s[2]) <= 9,
        ;
        assert(n % 10 == digit_val(s[2])) by (nonlinear_arith)
            requires
                n == 100 * digit_val(s[0]) + 10 * digit_val(s[1]) + digit_val(s[2]),
                0 <= digit_val(s[0]) <= 9,
                0 <= digit_val(s[1]) <= 9,
                0 <= digit_val(s[2]) <= 9,
        ;
        assert(reply_text(n) =~= s);
    }
}

/// A numeric reply together with its parameters.
#[derive(PartialEq, Eq, Debug)]
pub struct Reply {
    pub reply_type: ReplyType,
    pub params: MessageParams,
}

impl Reply {
    /// Parse a reply: three digits, then the parameter body from the
    /// fourth character on.
    pub fn parse(s: &str) -> (r: Result<Reply, ParseError>)
        ensures
            r is Ok <==> s@.len() >= 3 && reply_accepts(s@.take(3)),
            r matches Ok(t) ==> t.reply_type == reply_of(code_of_text(s@.take(3)))
                && t.params@ == crate::params::params_of(s@.skip(3)),
    {
        let v = to_chars(s);
        if v.len() < 3 {
            return Err(ParseError::new("Reply"));
        }
        let head = subvec(&v, 0, 3);
        proof {
            assert(head@ =~= s@.take(3));
        }
        let reply_type = match ReplyType::parse_chars(&head) {
            Ok(t) => t,
            Err(_) => {
                return Err(ParseError::new("Reply"));
            },
        };
        let tail = subvec(&v, 3, v.len());
        proof {
            assert(tail@ =~= s@.skip(3));
        }
        let params = MessageParams::parse_chars(&tail);
        Ok(Reply { reply_type, params })
    }

    /// The textual form: the code, a space, and the rendered parameters.
    pub fn render(&self) -> (r: String)
        requires
            reply_wf(self.reply_type),
        ensures
            r@ == reply_text(reply_code(self.reply_type)) + seq![' '] + spec_render_params(
                self.params@,
            ),
    {
        let mut out = self.reply_type.render_chars();
        out.push(' ');
        let body = self.params.render_chars();
        push_range(&mut out, &body, 0, body.len());
        proof {
            assert(body@.subrange(0, body@.len() as int) =~= body@);
            assert(out@ =~= reply_text(reply_code(self.reply_type)) + seq![' ']
                + spec_render_params(self.params@));
        }
        from_chars(&out)
    }
}

} // verus!
