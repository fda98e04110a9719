//! Page modes (Lite, Normal, Full): the scripts each mode injects and the colour that marks it.

use vstd::prelude::*;

use crate::text::same_text;

verus! {

/// The three page modes.
pub const MODES: [&'static str; 3] = ["lite", "normal", "full"];

/// JS injected at page load for Lite and Normal modes — blocks autoplay.
pub const BLOCK_AUTOPLAY_JS: &'static str = r#"(function(){
    'use strict';
    function muteEl(el){el.autoplay=false;el.muted=true;try{el.pause();}catch(_){}}
    document.querySelectorAll('video,audio').forEach(muteEl);
    new MutationObserver(function(ms){
        ms.forEach(function(m){
            m.addedNodes.forEach(function(n){
                if(!n||n.nodeType!==1)return;
                if(n.tagName==='VIDEO'||n.tagName==='AUDIO')muteEl(n);
                n.querySelectorAll&&n.querySelectorAll('video,audio').forEach(muteEl);
            });
        });
    }).observe(document.documentElement,{childList:true,subtree:true});
})();"#;

/// JS injected in Lite mode — attempts to block 3rd-party script injection.
pub const BLOCK_3RD_PARTY_SCRIPTS_JS: &'static str = r#"(function(){
    'use strict';
    var host=window.location.hostname;
    var _orig=document.createElement.bind(document);
    document.createElement=function(tag){
        var el=_orig(tag);
        if(tag.toLowerCase()!=='script')return el;
        var _set=el.setAttribute.bind(el);
        el.setAttribute=function(n,v){
            if(n==='src'){
                try{
                    var u=new URL(v,window.location.href);
                    if(u.hostname&&u.hostname!==host&&!u.hostname.endsWith('.'+host)){
                        console.log('[Bauer Lite] blocked:',v);return;
                    }
                }catch(_){}
            }
            return _set(n,v);
        };
        return el;
    };
})();"#;

/// JS that extracts readable content and rewrites the page.
pub const READER_MODE_JS: &'static str = r#"(function(){
    var sels=['article','main','[role="main"]','.post-content',
              '.article-body','.entry-content','.content','#content','.post'];
    var root=null;
    for(var i=0;i<sels.length;i++){root=document.querySelector(sels[i]);if(root)break;}
    if(!root)root=document.body;
    var c=root.cloneNode(true);
    c.querySelectorAll(
        'script,style,nav,header,footer,aside,iframe,.ad,.ads,'+
        '.advertisement,.sidebar,[class*="banner"],[class*="popup"]'
    ).forEach(function(e){e.remove();});
    var css='body{font-family:Georgia,serif;font-size:19px;line-height:1.85;'+
        'max-width:720px;margin:48px auto;padding:0 24px 80px;color:#2c3e50;background:#fafafa}'+
        'h1,h2,h3{color:#1a252f}a{color:#2980b9}'+
        'img{max-width:100%;border-radius:6px;margin:20px 0}'+
        'blockquote{border-left:4px solid #3498db;padding:.5em 1em;background:#eaf4fb;font-style:italic}'+
        'pre{background:#f0f0f0;padding:16px;border-radius:6px;overflow-x:auto}'+
        'code{background:#f0f0f0;padding:2px 6px;border-radius:3px}';
    var html='<!DOCTYPE html><html><head><meta charset="utf-8">'+
        '<meta name="viewport" content="width=device-width,initial-scale=1">'+
        '<title>'+document.title+'</title><style>'+css+'</style></head><body>'+
        '<h1>'+document.title+'</h1><div>'+c.innerHTML+'</div></body></html>';
    document.open();document.write(html);document.close();
})();"#;

/// The autoplay-blocking script for `mode`: Lite and Normal block autoplay, Full does not.
pub fn autoplay_script_for_mode(mode: &str) -> (r: Option<&'static str>)
    ensures
        r == if mode@ == "lite"@ || mode@ == "normal"@ {
            Some(BLOCK_AUTOPLAY_JS)
        } else {
            None::<&'static str>
        },
{
    if same_text(mode, "lite") || same_text(mode, "normal") {
        Some(BLOCK_AUTOPLAY_JS)
    } else {
        None
    }
}

/// The extra script for `mode`: only Lite blocks third-party script injection.
pub fn extra_script_for_mode(mode: &str) -> (r: Option<&'static str>)
    ensures
        r == if mode@ == "lite"@ {
            Some(BLOCK_3RD_PARTY_SCRIPTS_JS)
        } else {
            None::<&'static str>
        },
{
    if same_text(mode, "lite") {
        Some(BLOCK_3RD_PARTY_SCRIPTS_JS)
    } else {
        None
    }
}

/// The colour of a mode's indicator.
pub open spec fn mode_color_spec(mode: Seq<char>) -> Seq<char> {
    if mode == "lite"@ {
        "#2ecc71"@
    } else if mode == "normal"@ {
        "#3498db"@
    } else if mode == "full"@ {
        "#e74c3c"@
    } else {
        "#888888"@
    }
}

/// The colour of a mode's indicator; grey for an unknown mode.
pub fn mode_color(mode: &str) -> (r: &'static str)
    ensures
        r@ == mode_color_spec(mode@),
{
    if same_text(mode, "lite") {
        "#2ecc71"
    } else if same_text(mode, "normal") {
        "#3498db"
    } else if same_text(mode, "full") {
        "#e74c3c"
    } else {
        "#888888"
    }
}

} // verus!
