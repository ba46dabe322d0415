//! The kinds of tokens and of syntax, and a token packed into one word.

use vstd::prelude::*;
use vstd::string::*;

verus! {

/// The kinds of tokens that the lexer tells apart.
#[allow(non_camel_case_types)]
#[derive(Copy, Clone, PartialEq, Eq, Structural, Debug)]
pub enum TokenKind {
    Abstract,
    Ampersand,
    AmpersandAmpersand,
    AmpersandEqual,
    Arraykey,
    As,
    Async,
    At,
    Attribute,
    Await,
    Backslash,
    Backtick,
    Bar,
    BarBar,
    BarEqual,
    BarGreaterThan,
    Binary,
    BinaryLiteral,
    Bool,
    Boolean,
    BooleanLiteral,
    Break,
    Carat,
    CaratEqual,
    Case,
    Catch,
    Category,
    Children,
    Class,
    Classname,
    Clone,
    Colon,
    ColonColon,
    Comma,
    Concurrent,
    Const,
    Construct,
    Continue,
    Ctx,
    Darray,
    DecimalLiteral,
    Default,
    Define,
    Dict,
    Do,
    Dollar,
    DollarDollar,
    Dot,
    DotDotDot,
    DotEqual,
    Double,
    DoubleQuotedStringLiteral,
    DoubleQuotedStringLiteralHead,
    DoubleQuotedStringLiteralTail,
    Echo,
    Else,
    Elseif,
    Empty,
    EndOfFile,
    Endfor,
    Endforeach,
    Endif,
    Endswitch,
    Endwhile,
    Enum,
    Equal,
    EqualEqual,
    EqualEqualEqual,
    EqualEqualGreaterThan,
    EqualGreaterThan,
    ErrorToken,
    Eval,
    Exclamation,
    ExclamationEqual,
    ExclamationEqualEqual,
    Extends,
    Fallthrough,
    File,
    Final,
    Finally,
    Float,
    FloatingLiteral,
    For,
    Foreach,
    From,
    Function,
    Global,
    GreaterThan,
    GreaterThanEqual,
    GreaterThanGreaterThan,
    GreaterThanGreaterThanEqual,
    Hash,
    Hashbang,
    HeredocStringLiteral,
    HeredocStringLiteralHead,
    HeredocStringLiteralTail,
    HexadecimalLiteral,
    If,
    Implements,
    Include,
    Include_once,
    Inout,
    Instanceof,
    Insteadof,
    Int,
    Integer,
    Interface,
    Is,
    Isset,
    Keyset,
    Lateinit,
    LeftBrace,
    LeftBracket,
    LeftParen,
    LessThan,
    LessThanEqual,
    LessThanEqualGreaterThan,
    LessThanLessThan,
    LessThanLessThanEqual,
    LessThanQuestion,
    LessThanSlash,
    List,
    Minus,
    MinusEqual,
    MinusGreaterThan,
    MinusMinus,
    Mixed,
    Name,
    Namespace,
    New,
    Newctx,
    Newtype,
    Noreturn,
    NowdocStringLiteral,
    NullLiteral,
    Num,
    Object,
    OctalLiteral,
    Parent,
    Percent,
    PercentEqual,
    Plus,
    PlusEqual,
    PlusPlus,
    Print,
    Private,
    Protected,
    Public,
    Question,
    QuestionAs,
    QuestionColon,
    QuestionMinusGreaterThan,
    QuestionQuestion,
    QuestionQuestionEqual,
    Readonly,
    Real,
    Record,
    RecordDec,
    Reify,
    Require,
    Require_once,
    Required,
    Resource,
    Return,
    RightBrace,
    RightBracket,
    RightParen,
    SelfToken,
    Semicolon,
    Shape,
    SingleQuotedStringLiteral,
    Slash,
    SlashEqual,
    SlashGreaterThan,
    Star,
    StarEqual,
    StarStar,
    StarStarEqual,
    Static,
    String,
    StringLiteralBody,
    Super,
    Switch,
    This,
    Throw,
    Tilde,
    Trait,
    Try,
    Tuple,
    Type,
    Unset,
    Upcast,
    Use,
    Using,
    Var,
    Variable,
    Varray,
    Vec,
    Void,
    Where,
    While,
    XHP,
    XHPBody,
    XHPCategoryName,
    XHPClassName,
    XHPComment,
    XHPElementName,
    XHPStringLiteral,
    Yield,
}

/// The kinds of syntax that a node may stand for.
#[derive(Copy, Clone, PartialEq, Eq, Structural, Debug)]
pub enum SyntaxKind {
    Token(TokenKind),
    AliasDeclaration,
    AnonymousFunction,
    AttributizedSpecifier,
    AwaitableCreationExpression,
    BinaryExpression,
    ClassishDeclaration,
    ClassnameTypeSpecifier,
    ClosureTypeSpecifier,
    ConstDeclaration,
    ConstantDeclarator,
    ConstructorCall,
    ContextAliasDeclaration,
    ContextConstraint,
    DictionaryTypeSpecifier,
    EnumClassDeclaration,
    EnumClassEnumerator,
    EnumDeclaration,
    Enumerator,
    FieldSpecifier,
    FunctionCallExpression,
    FunctionCtxTypeSpecifier,
    FunctionDeclaration,
    GenericTypeSpecifier,
    KeysetTypeSpecifier,
    LambdaExpression,
    LikeTypeSpecifier,
    ListExpression,
    ListItem,
    MemberSelectionExpression,
    MethodishDeclaration,
    Missing,
    NamespaceBody,
    NamespaceDeclaration,
    NamespaceDeclarationHeader,
    NamespaceEmptyBody,
    NamespaceGroupUseDeclaration,
    NamespaceUseClause,
    NamespaceUseDeclaration,
    NullableTypeSpecifier,
    ObjectCreationExpression,
    OldAttributeSpecification,
    ParameterDeclaration,
    PostfixUnaryExpression,
    PrefixUnaryExpression,
    QualifiedName,
    RecordDeclaration,
    RecordField,
    SafeMemberSelectionExpression,
    ScopeResolutionExpression,
    SoftTypeSpecifier,
    SubscriptExpression,
    SyntaxList,
    TypeConstDeclaration,
    TypeConstant,
    TypeConstraint,
    TypeParameters,
    VariableExpression,
    VectorTypeSpecifier,
    XHPClassAttribute,
    XHPEnumType,
    /// A kind that nothing here treats by name, under its number.
    Other(u8),
}

/// How many kinds of tokens there are.
pub const TOKEN_KINDS: u8 = 209;

impl TokenKind {
    /// The number of a kind, which fits into a byte.
    pub open spec fn code(self) -> u8 {
        self as u8
    }

    /// The width of the tokens of a kind that always have the same text; the
    /// width of other tokens depends on the source.
    pub open spec fn width(self) -> Option<usize> {
        match self {
            TokenKind::Ampersand
            | TokenKind::At
            | TokenKind::Backslash
            | TokenKind::Backtick
            | TokenKind::Bar
            | TokenKind::Carat
            | TokenKind::Colon
            | TokenKind::Comma
            | TokenKind::Dollar
            | TokenKind::Dot
            | TokenKind::Equal
            | TokenKind::Exclamation
            | TokenKind::GreaterThan
            | TokenKind::Hash
            | TokenKind::LeftBrace
            | TokenKind::LeftBracket
            | TokenKind::LeftParen
            | TokenKind::LessThan
            | TokenKind::Minus
            | TokenKind::Percent
            | TokenKind::Plus
            | TokenKind::Question
            | TokenKind::RightBrace
            | TokenKind::RightBracket
            | TokenKind::RightParen
            | TokenKind::Semicolon
            | TokenKind::Slash
            | TokenKind::Star
            | TokenKind::Tilde => Some(1usize),
            TokenKind::AmpersandAmpersand
            | TokenKind::AmpersandEqual
            | TokenKind::As
            | TokenKind::BarBar
            | TokenKind::BarEqual
            | TokenKind::BarGreaterThan
            | TokenKind::CaratEqual
            | TokenKind::ColonColon
            | TokenKind::Do
            | TokenKind::DollarDollar
            | TokenKind::DotEqual
            | TokenKind::EqualEqual
            | TokenKind::EqualGreaterThan
            | TokenKind::ExclamationEqual
            | TokenKind::GreaterThanEqual
            | TokenKind::GreaterThanGreaterThan
            | TokenKind::If
            | TokenKind::Is
            | TokenKind::LessThanEqual
            | TokenKind::LessThanLessThan
            | TokenKind::LessThanQuestion
            | TokenKind::LessThanSlash
            | TokenKind::MinusEqual
            | TokenKind::MinusGreaterThan
            | TokenKind::MinusMinus
            | TokenKind::PercentEqual
            | TokenKind::PlusEqual
            | TokenKind::PlusPlus
            | TokenKind::QuestionColon
            | TokenKind::QuestionQuestion
            | TokenKind::SlashEqual
            | TokenKind::SlashGreaterThan
            | TokenKind::StarEqual
            | TokenKind::StarStar => Some(2usize),
            TokenKind::Ctx
            | TokenKind::DotDotDot
            | TokenKind::EqualEqualEqual
            | TokenKind::EqualEqualGreaterThan
            | TokenKind::ExclamationEqualEqual
            | TokenKind::For
            | TokenKind::GreaterThanGreaterThanEqual
            | TokenKind::Int
            | TokenKind::LessThanEqualGreaterThan
            | TokenKind::LessThanLessThanEqual
            | TokenKind::New
            | TokenKind::Num
            | TokenKind::QuestionAs
            | TokenKind::QuestionMinusGreaterThan
            | TokenKind::QuestionQuestionEqual
            | TokenKind::StarStarEqual
            | TokenKind::Try
            | TokenKind::Use
            | TokenKind::Var
            | TokenKind::Vec
            | TokenKind::XHP => Some(3usize),
            TokenKind::Bool
            | TokenKind::Case
            | TokenKind::Dict
            | TokenKind::Echo
            | TokenKind::Else
            | TokenKind::Enum
            | TokenKind::Eval
            | TokenKind::File
            | TokenKind::From
            | TokenKind::List
            | TokenKind::NullLiteral
            | TokenKind::Real
            | TokenKind::SelfToken
            | TokenKind::This
            | TokenKind::Type
            | TokenKind::Void => Some(4usize),
            TokenKind::Async
            | TokenKind::Await
            | TokenKind::Break
            | TokenKind::Catch
            | TokenKind::Class
            | TokenKind::Clone
            | TokenKind::Const
            | TokenKind::Empty
            | TokenKind::Endif
            | TokenKind::Final
            | TokenKind::Float
            | TokenKind::Inout
            | TokenKind::Isset
            | TokenKind::Mixed
            | TokenKind::Print
            | TokenKind::Reify
            | TokenKind::Shape
            | TokenKind::Super
            | TokenKind::Throw
            | TokenKind::Trait
            | TokenKind::Tuple
            | TokenKind::Unset
            | TokenKind::Using
            | TokenKind::Where
            | TokenKind::While
            | TokenKind::Yield => Some(5usize),
            TokenKind::Binary
            | TokenKind::Darray
            | TokenKind::Define
            | TokenKind::Double
            | TokenKind::Elseif
            | TokenKind::Endfor
            | TokenKind::Global
            | TokenKind::Keyset
            | TokenKind::Newctx
            | TokenKind::Object
            | TokenKind::Parent
            | TokenKind::Public
            | TokenKind::Record
            | TokenKind::Return
            | TokenKind::Static
            | TokenKind::String
            | TokenKind::Switch
            | TokenKind::Upcast
            | TokenKind::Varray => Some(6usize),
            TokenKind::Boolean
            | TokenKind::Default
            | TokenKind::Extends
            | TokenKind::Finally
            | TokenKind::Foreach
            | TokenKind::Include
            | TokenKind::Integer
            | TokenKind::Newtype
            | TokenKind::Private
            | TokenKind::Require => Some(7usize),
            TokenKind::Abstract
            | TokenKind::Arraykey
            | TokenKind::Category
            | TokenKind::Children
            | TokenKind::Continue
            | TokenKind::Endwhile
            | TokenKind::Function
            | TokenKind::Lateinit
            | TokenKind::Noreturn
            | TokenKind::Readonly
            | TokenKind::Required
            | TokenKind::Resource => Some(8usize),
            TokenKind::Attribute
            | TokenKind::Classname
            | TokenKind::Endswitch
            | TokenKind::Insteadof
            | TokenKind::Interface
            | TokenKind::Namespace
            | TokenKind::Protected => Some(9usize),
            TokenKind::Concurrent
            | TokenKind::Endforeach
            | TokenKind::Implements
            | TokenKind::Instanceof
            | TokenKind::RecordDec => Some(10usize),
            TokenKind::Construct
            | TokenKind::Fallthrough => Some(11usize),
            TokenKind::Include_once
            | TokenKind::Require_once => Some(12usize),
            _ => None,
        }
    }

    pub fn fixed_width(self) -> (r: Option<usize>)
        ensures
            r == self.width(),
    {
        match self {
            TokenKind::Ampersand
            | TokenKind::At
            | TokenKind::Backslash
            | TokenKind::Backtick
            | TokenKind::Bar
            | TokenKind::Carat
            | TokenKind::Colon
            | TokenKind::Comma
            | TokenKind::Dollar
            | TokenKind::Dot
            | TokenKind::Equal
            | TokenKind::Exclamation
            | TokenKind::GreaterThan
            | TokenKind::Hash
            | TokenKind::LeftBrace
            | TokenKind::LeftBracket
            | TokenKind::LeftParen
            | TokenKind::LessThan
            | TokenKind::Minus
            | TokenKind::Percent
            | TokenKind::Plus
            | TokenKind::Question
            | TokenKind::RightBrace
            | TokenKind::RightBracket
            | TokenKind::RightParen
            | TokenKind::Semicolon
            | TokenKind::Slash
            | TokenKind::Star
            | TokenKind::Tilde => Some(1usize),
            TokenKind::AmpersandAmpersand
            | TokenKind::AmpersandEqual
            | TokenKind::As
            | TokenKind::BarBar
            | TokenKind::BarEqual
            | TokenKind::BarGreaterThan
            | TokenKind::CaratEqual
            | TokenKind::ColonColon
            | TokenKind::Do
            | TokenKind::DollarDollar
            | TokenKind::DotEqual
            | TokenKind::EqualEqual
            | TokenKind::EqualGreaterThan
            | TokenKind::ExclamationEqual
            | TokenKind::GreaterThanEqual
            | TokenKind::GreaterThanGreaterThan
            | TokenKind::If
            | TokenKind::Is
            | TokenKind::LessThanEqual
            | TokenKind::LessThanLessThan
            | TokenKind::LessThanQuestion
            | TokenKind::LessThanSlash
            | TokenKind::MinusEqual
            | TokenKind::MinusGreaterThan
            | TokenKind::MinusMinus
            | TokenKind::PercentEqual
            | TokenKind::PlusEqual
            | TokenKind::PlusPlus
            | TokenKind::QuestionColon
            | TokenKind::QuestionQuestion
            | TokenKind::SlashEqual
            | TokenKind::SlashGreaterThan
            | TokenKind::StarEqual
            | TokenKind::StarStar => Some(2usize),
            TokenKind::Ctx
            | TokenKind::DotDotDot
            | TokenKind::EqualEqualEqual
            | TokenKind::EqualEqualGreaterThan
            | TokenKind::ExclamationEqualEqual
            | TokenKind::For
            | TokenKind::GreaterThanGreaterThanEqual
            | TokenKind::Int
            | TokenKind::LessThanEqualGreaterThan
            | TokenKind::LessThanLessThanEqual
            | TokenKind::New
            | TokenKind::Num
            | TokenKind::QuestionAs
            | TokenKind::QuestionMinusGreaterThan
            | TokenKind::QuestionQuestionEqual
            | TokenKind::StarStarEqual
            | TokenKind::Try
            | TokenKind::Use
            | TokenKind::Var
            | TokenKind::Vec
            | TokenKind::XHP => Some(3usize),
            TokenKind::Bool
            | TokenKind::Case
            | TokenKind::Dict
            | TokenKind::Echo
            | TokenKind::Else
            | TokenKind::Enum
            | TokenKind::Eval
            | TokenKind::File
            | TokenKind::From
            | TokenKind::List
            | TokenKind::NullLiteral
            | TokenKind::Real
            | TokenKind::SelfToken
            | TokenKind::This
            | TokenKind::Type
            | TokenKind::Void => Some(4usize),
            TokenKind::Async
            | TokenKind::Await
            | TokenKind::Break
            | TokenKind::Catch
            | TokenKind::Class
            | TokenKind::Clone
            | TokenKind::Const
            | TokenKind::Empty
            | TokenKind::Endif
            | TokenKind::Final
            | TokenKind::Float
            | TokenKind::Inout
            | TokenKind::Isset
            | TokenKind::Mixed
            | TokenKind::Print
            | TokenKind::Reify
            | TokenKind::Shape
            | TokenKind::Super
            | TokenKind::Throw
            | TokenKind::Trait
            | TokenKind::Tuple
            | TokenKind::Unset
            | TokenKind::Using
            | TokenKind::Where
            | TokenKind::While
            | TokenKind::Yield => Some(5usize),
            TokenKind::Binary
            | TokenKind::Darray
            | TokenKind::Define
            | TokenKind::Double
            | TokenKind::Elseif
            | TokenKind::Endfor
            | TokenKind::Global
            | TokenKind::Keyset
            | TokenKind::Newctx
            | TokenKind::Object
            | TokenKind::Parent
            | TokenKind::Public
            | TokenKind::Record
            | TokenKind::Return
            | TokenKind::Static
            | TokenKind::String
            | TokenKind::Switch
            | TokenKind::Upcast
            | TokenKind::Varray => Some(6usize),
            TokenKind::Boolean
            | TokenKind::Default
            | TokenKind::Extends
            | TokenKind::Finally
            | TokenKind::Foreach
            | TokenKind::Include
            | TokenKind::Integer
            | TokenKind::Newtype
            | TokenKind::Private
            | TokenKind::Require => Some(7usize),
            TokenKind::Abstract
            | TokenKind::Arraykey
            | TokenKind::Category
            | TokenKind::Children
            | TokenKind::Continue
            | TokenKind::Endwhile
            | TokenKind::Function
            | TokenKind::Lateinit
            | TokenKind::Noreturn
            | TokenKind::Readonly
            | TokenKind::Required
            | TokenKind::Resource => Some(8usize),
            TokenKind::Attribute
            | TokenKind::Classname
            | TokenKind::Endswitch
            | TokenKind::Insteadof
            | TokenKind::Interface
            | TokenKind::Namespace
            | TokenKind::Protected => Some(9usize),
            TokenKind::Concurrent
            | TokenKind::Endforeach
            | TokenKind::Implements
            | TokenKind::Instanceof
            | TokenKind::RecordDec => Some(10usize),
            TokenKind::Construct
            | TokenKind::Fallthrough => Some(11usize),
            TokenKind::Include_once
            | TokenKind::Require_once => Some(12usize),
            _ => None,
        }
    }

    /// The kind with the given number, if there is one.
    pub fn try_from_u8(code: u8) -> (r: Option<TokenKind>)
        ensures
            r matches Some(kind) ==> kind.code() == code,
            r is Some <==> code < TOKEN_KINDS,
    {
        match code {
            0u8 => Some(TokenKind::Abstract),
            1u8 => Some(TokenKind::Ampersand),
            2u8 => Some(TokenKind::AmpersandAmpersand),
            3u8 => Some(TokenKind::AmpersandEqual),
            4u8 => Some(TokenKind::Arraykey),
            5u8 => Some(TokenKind::As),
            6u8 => Some(TokenKind::Async),
            7u8 => Some(TokenKind::At),
            8u8 => Some(TokenKind::Attribute),
            9u8 => Some(TokenKind::Await),
            10u8 => Some(TokenKind::Backslash),
            11u8 => Some(TokenKind::Backtick),
            12u8 => Some(TokenKind::Bar),
            13u8 => Some(TokenKind::BarBar),
            14u8 => Some(TokenKind::BarEqual),
            15u8 => Some(TokenKind::BarGreaterThan),
            16u8 => Some(TokenKind::Binary),
            17u8 => Some(TokenKind::BinaryLiteral),
            18u8 => Some(TokenKind::Bool),
            19u8 => Some(TokenKind::Boolean),
            20u8 => Some(TokenKind::BooleanLiteral),
            21u8 => Some(TokenKind::Break),
            22u8 => Some(TokenKind::Carat),
            23u8 => Some(TokenKind::CaratEqual),
            24u8 => Some(TokenKind::Case),
            25u8 => Some(TokenKind::Catch),
            26u8 => Some(TokenKind::Category),
            27u8 => Some(TokenKind::Children),
            28u8 => Some(TokenKind::Class),
            29u8 => Some(TokenKind::Classname),
            30u8 => Some(TokenKind::Clone),
            31u8 => Some(TokenKind::Colon),
            32u8 => Some(TokenKind::ColonColon),
            33u8 => Some(TokenKind::Comma),
            34u8 => Some(TokenKind::Concurrent),
            35u8 => Some(TokenKind::Const),
            36u8 => Some(TokenKind::Construct),
            37u8 => Some(TokenKind::Continue),
            38u8 => Some(TokenKind::Ctx),
            39u8 => Some(TokenKind::Darray),
            40u8 => Some(TokenKind::DecimalLiteral),
            41u8 => Some(TokenKind::Default),
            42u8 => Some(TokenKind::Define),
            43u8 => Some(TokenKind::Dict),
            44u8 => Some(TokenKind::Do),
            45u8 => Some(TokenKind::Dollar),
            46u8 => Some(TokenKind::DollarDollar),
            47u8 => Some(TokenKind::Dot),
            48u8 => Some(TokenKind::DotDotDot),
            49u8 => Some(TokenKind::DotEqual),
            50u8 => Some(TokenKind::Double),
            51u8 => Some(TokenKind::DoubleQuotedStringLiteral),
            52u8 => Some(TokenKind::DoubleQuotedStringLiteralHead),
            53u8 => Some(TokenKind::DoubleQuotedStringLiteralTail),
            54u8 => Some(TokenKind::Echo),
            55u8 => Some(TokenKind::Else),
            56u8 => Some(TokenKind::Elseif),
            57u8 => Some(TokenKind::Empty),
            58u8 => Some(TokenKind::EndOfFile),
            59u8 => Some(TokenKind::Endfor),
            60u8 => Some(TokenKind::Endforeach),
            61u8 => Some(TokenKind::Endif),
            62u8 => Some(TokenKind::Endswitch),
            63u8 => Some(TokenKind::Endwhile),
            64u8 => Some(TokenKind::Enum),
            65u8 => Some(TokenKind::Equal),
            66u8 => Some(TokenKind::EqualEqual),
            67u8 => Some(TokenKind::EqualEqualEqual),
            68u8 => Some(TokenKind::EqualEqualGreaterThan),
            69u8 => Some(TokenKind::EqualGreaterThan),
            70u8 => Some(TokenKind::ErrorToken),
            71u8 => Some(TokenKind::Eval),
            72u8 => Some(TokenKind::Exclamation),
            73u8 => Some(TokenKind::ExclamationEqual),
            74u8 => Some(TokenKind::ExclamationEqualEqual),
            75u8 => Some(TokenKind::Extends),
            76u8 => Some(TokenKind::Fallthrough),
            77u8 => Some(TokenKind::File),
            78u8 => Some(TokenKind::Final),
            79u8 => Some(TokenKind::Finally),
            80u8 => Some(TokenKind::Float),
            81u8 => Some(TokenKind::FloatingLiteral),
            82u8 => Some(TokenKind::For),
            83u8 => Some(TokenKind::Foreach),
            84u8 => Some(TokenKind::From),
            85u8 => Some(TokenKind::Function),
            86u8 => Some(TokenKind::Global),
            87u8 => Some(TokenKind::GreaterThan),
            88u8 => Some(TokenKind::GreaterThanEqual),
            89u8 => Some(TokenKind::GreaterThanGreaterThan),
            90u8 => Some(TokenKind::GreaterThanGreaterThanEqual),
            91u8 => Some(TokenKind::Hash),
            92u8 => Some(TokenKind::Hashbang),
            93u8 => Some(TokenKind::HeredocStringLiteral),
            94u8 => Some(TokenKind::HeredocStringLiteralHead),
            95u8 => Some(TokenKind::HeredocStringLiteralTail),
            96u8 => Some(TokenKind::HexadecimalLiteral),
            97u8 => Some(TokenKind::If),
            98u8 => Some(TokenKind::Implements),
            99u8 => Some(TokenKind::Include),
            100u8 => Some(TokenKind::Include_once),
            101u8 => Some(TokenKind::Inout),
            102u8 => Some(TokenKind::Instanceof),
            103u8 => Some(TokenKind::Insteadof),
            104u8 => Some(TokenKind::Int),
            105u8 => Some(TokenKind::Integer),
            106u8 => Some(TokenKind::Interface),
            107u8 => Some(TokenKind::Is),
            108u8 => Some(TokenKind::Isset),
            109u8 => Some(TokenKind::Keyset),
            110u8 => Some(TokenKind::Lateinit),
            111u8 => Some(TokenKind::LeftBrace),
            112u8 => Some(TokenKind::LeftBracket),
            113u8 => Some(TokenKind::LeftParen),
            114u8 => Some(TokenKind::LessThan),
            115u8 => Some(TokenKind::LessThanEqual),
            116u8 => Some(TokenKind::LessThanEqualGreaterThan),
            117u8 => Some(TokenKind::LessThanLessThan),
            118u8 => Some(TokenKind::LessThanLessThanEqual),
            119u8 => Some(TokenKind::LessThanQuestion),
            120u8 => Some(TokenKind::LessThanSlash),
            121u8 => Some(TokenKind::List),
            122u8 => Some(TokenKind::Minus),
            123u8 => Some(TokenKind::MinusEqual),
            124u8 => Some(TokenKind::MinusGreaterThan),
            125u8 => Some(TokenKind::MinusMinus),
            126u8 => Some(TokenKind::Mixed),
            127u8 => Some(TokenKind::Name),
            128u8 => Some(TokenKind::Namespace),
            129u8 => Some(TokenKind::New),
            130u8 => Some(TokenKind::Newctx),
            131u8 => Some(TokenKind::Newtype),
            132u8 => Some(TokenKind::Noreturn),
            133u8 => Some(TokenKind::NowdocStringLiteral),
            134u8 => Some(TokenKind::NullLiteral),
            135u8 => Some(TokenKind::Num),
            136u8 => Some(TokenKind::Object),
            137u8 => Some(TokenKind::OctalLiteral),
            138u8 => Some(TokenKind::Parent),
            139u8 => Some(TokenKind::Percent),
            140u8 => Some(TokenKind::PercentEqual),
            141u8 => Some(TokenKind::Plus),
            142u8 => Some(TokenKind::PlusEqual),
            143u8 => Some(TokenKind::PlusPlus),
            144u8 => Some(TokenKind::Print),
            145u8 => Some(TokenKind::Private),
            146u8 => Some(TokenKind::Protected),
            147u8 => Some(TokenKind::Public),
            148u8 => Some(TokenKind::Question),
            149u8 => Some(TokenKind::QuestionAs),
            150u8 => Some(TokenKind::QuestionColon),
            151u8 => Some(TokenKind::QuestionMinusGreaterThan),
            152u8 => Some(TokenKind::QuestionQuestion),
            153u8 => Some(TokenKind::QuestionQuestionEqual),
            154u8 => Some(TokenKind::Readonly),
            155u8 => Some(TokenKind::Real),
            156u8 => Some(TokenKind::Record),
            157u8 => Some(TokenKind::RecordDec),
            158u8 => Some(TokenKind::Reify),
            159u8 => Some(TokenKind::Require),
            160u8 => Some(TokenKind::Require_once),
            161u8 => Some(TokenKind::Required),
            162u8 => Some(TokenKind::Resource),
            163u8 => Some(TokenKind::Return),
            164u8 => Some(TokenKind::RightBrace),
            165u8 => Some(TokenKind::RightBracket),
            166u8 => Some(TokenKind::RightParen),
            167u8 => Some(TokenKind::SelfToken),
            168u8 => Some(TokenKind::Semicolon),
            169u8 => Some(TokenKind::Shape),
            170u8 => Some(TokenKind::SingleQuotedStringLiteral),
            171u8 => Some(TokenKind::Slash),
            172u8 => Some(TokenKind::SlashEqual),
            173u8 => Some(TokenKind::SlashGreaterThan),
            174u8 => Some(TokenKind::Star),
            175u8 => Some(TokenKind::StarEqual),
            176u8 => Some(TokenKind::StarStar),
            177u8 => Some(TokenKind::StarStarEqual),
            178u8 => Some(TokenKind::Static),
            179u8 => Some(TokenKind::String),
            180u8 => Some(TokenKind::StringLiteralBody),
            181u8 => Some(TokenKind::Super),
            182u8 => Some(TokenKind::Switch),
            183u8 => Some(TokenKind::This),
            184u8 => Some(TokenKind::Throw),
            185u8 => Some(TokenKind::Tilde),
            186u8 => Some(TokenKind::Trait),
            187u8 => Some(TokenKind::Try),
            188u8 => Some(TokenKind::Tuple),
            189u8 => Some(TokenKind::Type),
            190u8 => Some(TokenKind::Unset),
            191u8 => Some(TokenKind::Upcast),
            192u8 => Some(TokenKind::Use),
            193u8 => Some(TokenKind::Using),
            194u8 => Some(TokenKind::Var),
            195u8 => Some(TokenKind::Variable),
            196u8 => Some(TokenKind::Varray),
            197u8 => Some(TokenKind::Vec),
            198u8 => Some(TokenKind::Void),
            199u8 => Some(TokenKind::Where),
            200u8 => Some(TokenKind::While),
            201u8 => Some(TokenKind::XHP),
            202u8 => Some(TokenKind::XHPBody),
            203u8 => Some(TokenKind::XHPCategoryName),
            204u8 => Some(TokenKind::XHPClassName),
            205u8 => Some(TokenKind::XHPComment),
            206u8 => Some(TokenKind::XHPElementName),
            207u8 => Some(TokenKind::XHPStringLiteral),
            208u8 => Some(TokenKind::Yield),
            _ => None,
        }
    }
}

/// Every kind has a number below the count of kinds.
pub proof fn lemma_code_bound(kind: TokenKind)
    ensures
        kind.code() < TOKEN_KINDS,
{
}

/// Two kinds with the same number are the same.
pub proof fn lemma_code_injective(a: TokenKind, b: TokenKind)
    requires
        a.code() == b.code(),
    ensures
        a == b,
{
}

/// A token as the lexer hands it over: its kind, where its text starts in the
/// source, and how many bytes that has.
#[derive(Copy, Clone, PartialEq, Eq, Structural, Debug)]
pub struct CompactToken {
    pub kind: TokenKind,
    pub start_offset: usize,
    pub width: usize,
}

impl CompactToken {
    pub open spec fn spec_end(self) -> usize {
        (self.start_offset + self.width) as usize
    }

    /// The offset at which the text of the token ends.
    pub fn end_offset(self) -> (r: usize)
        requires
            self.start_offset + self.width <= usize::MAX,
        ensures
            r == self.spec_end(),
    {
        self.start_offset + self.width
    }
}

/// A token whose kind fixes its width, in one word: the kind in the lowest
/// byte, and above it the offset in the source.
#[derive(Copy, Clone)]
pub struct FixedWidthToken(u64);

pub const KIND_BITS: u8 = 8;

pub const KIND_MASK: u64 = 0xff;

/// The largest offset that leaves room for the kind.
pub const MAX_OFFSET: u64 = 0x00ff_ffff_ffff_ffff;

impl FixedWidthToken {
    pub closed spec fn spec_kind(self) -> TokenKind {
        choose|kind: TokenKind| #[trigger] kind.code() == (self.0 & KIND_MASK) as u8
    }

    pub closed spec fn spec_offset(self) -> usize {
        (self.0 >> KIND_BITS) as usize
    }

    /// The token of the given kind at the given offset.
    pub closed spec fn of(kind: TokenKind, offset: usize) -> FixedWidthToken {
        FixedWidthToken((offset as u64) << KIND_BITS | kind.code() as u64)
    }

    /// The width that the kind fixes.
    pub open spec fn spec_width(self) -> usize {
        self.spec_kind().width()->Some_0
    }

    #[verifier::type_invariant]
    spec fn packed(self) -> bool {
        &&& exists|kind: TokenKind| #[trigger] kind.code() == (self.0 & KIND_MASK) as u8
        &&& self.spec_kind().width() is Some
        &&& (self.0 >> KIND_BITS) <= usize::MAX
        &&& self.spec_offset() + self.spec_width() <= usize::MAX
    }

    /// Makes the token of the given kind at the given offset. Its end has to
    /// be an offset too.
    pub fn new(kind: TokenKind, offset: usize) -> (r: Self)
        requires
            kind.width() is Some,
            offset <= MAX_OFFSET,
            offset + kind.width()->Some_0 <= usize::MAX,
        ensures
            r == FixedWidthToken::of(kind, offset),
            r.spec_kind() == kind,
            r.spec_offset() == offset,
    {
        let at: u64 = offset as u64;
        let code: u8 = kind as u8;
        proof {
            lemma_pack(kind, offset);
        }
        FixedWidthToken(at << KIND_BITS | code as u64)
    }

    pub fn offset(self) -> (r: usize)
        ensures
            r == self.spec_offset(),
            r <= MAX_OFFSET,
    {
        proof {
            use_type_invariant(&self);
            let bits = self.0;
            assert(bits >> 8u8 <= 0x00ff_ffff_ffff_ffffu64) by (bit_vector);
        }
        (self.0 >> KIND_BITS) as usize
    }

    /// The offset at which the token ends.
    pub fn end(self) -> (r: usize)
        ensures
            r == self.spec_offset() + self.spec_width(),
    {
        proof {
            use_type_invariant(&self);
        }
        self.offset() + self.width()
    }

    pub fn kind(self) -> (r: TokenKind)
        ensures
            r == self.spec_kind(),
            r.width() is Some,
    {
        proof {
            use_type_invariant(&self);
            lemma_code_bound(self.spec_kind());
            let bits = self.0;
            assert(bits as u8 == (bits & 0xffu64) as u8) by (bit_vector);
        }
        match TokenKind::try_from_u8(self.0 as u8) {
            Some(kind) => {
                proof {
                    lemma_code_injective(kind, self.spec_kind());
                }
                kind
            },
            None => {
                assert(false);
                TokenKind::EndOfFile
            },
        }
    }

    pub fn width(self) -> (r: usize)
        ensures
            r == self.spec_width(),
            0 < r <= 12,
    {
        match self.kind().fixed_width() {
            Some(width) => width,
            None => {
                assert(false);
                0
            },
        }
    }
}

proof fn lemma_pack(kind: TokenKind, offset: usize)
    requires
        offset <= MAX_OFFSET,
    ensures
        FixedWidthToken::of(kind, offset).spec_kind() == kind,
        FixedWidthToken::of(kind, offset).spec_offset() == offset,
        (FixedWidthToken::of(kind, offset).0 & KIND_MASK) as u8 == kind.code(),
        (FixedWidthToken::of(kind, offset).0 >> KIND_BITS) == offset,
{
    let at: u64 = offset as u64;
    let code: u8 = kind.code();
    let bits: u64 = at << 8u8 | code as u64;
    assert((bits & 0xffu64) as u8 == code) by (bit_vector)
        requires
            bits == at << 8u8 | code as u64,
    ;
    assert(bits >> 8u8 == at) by (bit_vector)
        requires
            bits == at << 8u8 | code as u64,
            at <= 0x00ff_ffff_ffff_ffffu64,
    ;
    lemma_code_injective(kind, FixedWidthToken::of(kind, offset).spec_kind());
}

/// Packing loses nothing: a token has the kind and the offset that it was
/// made of, and the width of its kind.
pub proof fn law_packed_token_is_its_parts(kind: TokenKind, offset: usize)
    requires
        kind.width() is Some,
        offset <= MAX_OFFSET,
    ensures
        FixedWidthToken::of(kind, offset).spec_kind() == kind,
        FixedWidthToken::of(kind, offset).spec_offset() == offset,
        Some(FixedWidthToken::of(kind, offset).spec_width()) == kind.width(),
{
    lemma_pack(kind, offset);
}

/// How the tokens are spelled that are kept for what they are: marks and
/// keywords.
pub open spec fn spelling(kind: TokenKind) -> Option<&'static str> {
    match kind {
        TokenKind::NullLiteral => Some("null"),
        TokenKind::Darray => Some("darray"),
        TokenKind::Varray => Some("varray"),
        TokenKind::Backslash => Some("\\"),
        TokenKind::Construct => Some("__construct"),
        TokenKind::LeftParen => Some("("),
        TokenKind::RightParen => Some(")"),
        TokenKind::LeftBracket => Some("["),
        TokenKind::RightBracket => Some("]"),
        TokenKind::Shape => Some("shape"),
        TokenKind::Question => Some("?"),
        TokenKind::This => Some("this"),
        TokenKind::Tilde => Some("~"),
        TokenKind::Exclamation => Some("!"),
        TokenKind::Plus => Some("+"),
        TokenKind::Minus => Some("-"),
        TokenKind::PlusPlus => Some("++"),
        TokenKind::MinusMinus => Some("--"),
        TokenKind::At => Some("@"),
        TokenKind::Star => Some("*"),
        TokenKind::Slash => Some("/"),
        TokenKind::EqualEqual => Some("=="),
        TokenKind::EqualEqualEqual => Some("==="),
        TokenKind::StarStar => Some("**"),
        TokenKind::AmpersandAmpersand => Some("&&"),
        TokenKind::BarBar => Some("||"),
        TokenKind::LessThan => Some("<"),
        TokenKind::LessThanEqual => Some("<="),
        TokenKind::GreaterThan => Some(">"),
        TokenKind::GreaterThanEqual => Some(">="),
        TokenKind::Dot => Some("."),
        TokenKind::Ampersand => Some("&"),
        TokenKind::Bar => Some("|"),
        TokenKind::LessThanLessThan => Some("<<"),
        TokenKind::GreaterThanGreaterThan => Some(">>"),
        TokenKind::Percent => Some("%"),
        TokenKind::QuestionQuestion => Some("??"),
        TokenKind::Equal => Some("="),
        TokenKind::Abstract => Some("abstract"),
        TokenKind::As => Some("as"),
        TokenKind::Super => Some("super"),
        TokenKind::Async => Some("async"),
        TokenKind::DotDotDot => Some("..."),
        TokenKind::Extends => Some("extends"),
        TokenKind::Final => Some("final"),
        TokenKind::Implements => Some("implements"),
        TokenKind::Inout => Some("inout"),
        TokenKind::Interface => Some("interface"),
        TokenKind::Newctx => Some("newctx"),
        TokenKind::Newtype => Some("newtype"),
        TokenKind::Type => Some("type"),
        TokenKind::Yield => Some("yield"),
        TokenKind::Semicolon => Some(";"),
        TokenKind::Private => Some("private"),
        TokenKind::Protected => Some("protected"),
        TokenKind::Public => Some("public"),
        TokenKind::Reify => Some("reify"),
        TokenKind::Static => Some("static"),
        TokenKind::Trait => Some("trait"),
        TokenKind::Lateinit => Some("lateinit"),
        TokenKind::RecordDec => Some("recordname"),
        TokenKind::RightBrace => Some("}"),
        TokenKind::Enum => Some("enum"),
        TokenKind::Const => Some("const"),
        TokenKind::Function => Some("function"),
        TokenKind::Namespace => Some("namespace"),
        TokenKind::XHP => Some("xhp"),
        TokenKind::Required => Some("required"),
        TokenKind::Ctx => Some("ctx"),
        TokenKind::Readonly => Some("readonly"),
        _ => None,
    }
}

/// A mark or a keyword is as wide as it is spelled.
pub proof fn law_width_is_that_of_the_spelling(kind: TokenKind)
    ensures
        spelling(kind) matches Some(text) ==> kind.width() == Some(text@.len() as usize),
{
    reveal_strlit("null");
    reveal_strlit("darray");
    reveal_strlit("varray");
    reveal_strlit("\\");
    reveal_strlit("__construct");
    reveal_strlit("(");
    reveal_strlit(")");
    reveal_strlit("[");
    reveal_strlit("]");
    reveal_strlit("shape");
    reveal_strlit("?");
    reveal_strlit("this");
    reveal_strlit("~");
    reveal_strlit("!");
    reveal_strlit("+");
    reveal_strlit("-");
    reveal_strlit("++");
    reveal_strlit("--");
    reveal_strlit("@");
    reveal_strlit("*");
    reveal_strlit("/");
    reveal_strlit("==");
    reveal_strlit("===");
    reveal_strlit("**");
    reveal_strlit("&&");
    reveal_strlit("||");
    reveal_strlit("<");
    reveal_strlit("<=");
    reveal_strlit(">");
    reveal_strlit(">=");
    reveal_strlit(".");
    reveal_strlit("&");
    reveal_strlit("|");
    reveal_strlit("<<");
    reveal_strlit(">>");
    reveal_strlit("%");
    reveal_strlit("??");
    reveal_strlit("=");
    reveal_strlit("abstract");
    reveal_strlit("as");
    reveal_strlit("super");
    reveal_strlit("async");
    reveal_strlit("...");
    reveal_strlit("extends");
    reveal_strlit("final");
    reveal_strlit("implements");
    reveal_strlit("inout");
    reveal_strlit("interface");
    reveal_strlit("newctx");
    reveal_strlit("newtype");
    reveal_strlit("type");
    reveal_strlit("yield");
    reveal_strlit(";");
    reveal_strlit("private");
    reveal_strlit("protected");
    reveal_strlit("public");
    reveal_strlit("reify");
    reveal_strlit("static");
    reveal_strlit("trait");
    reveal_strlit("lateinit");
    reveal_strlit("recordname");
    reveal_strlit("}");
    reveal_strlit("enum");
    reveal_strlit("const");
    reveal_strlit("function");
    reveal_strlit("namespace");
    reveal_strlit("xhp");
    reveal_strlit("required");
    reveal_strlit("ctx");
    reveal_strlit("readonly");
}

} // verus!
